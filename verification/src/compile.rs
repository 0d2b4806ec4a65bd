//! Rust types that have a type of the arena standing for them.

use vstd::prelude::*;
use crate::context::{constant_interned, interned, with_types_of, Context, TypeKind, TypeNode, TypeShape};
use crate::types::{scalar_shape, types_of, FunctionType, StructType, Type};
use crate::value::Value;

verus! {

/// What compiling a number to a constant does to the arena and returns: the
/// type of the shape given is asked for, then the constant of that type with
/// the bits given.
pub open spec fn compiled(
    before: &Context,
    after: &Context,
    shape: TypeShape,
    bits: u64,
    raw: usize,
) -> bool {
    let mid = with_types_of(before, after);
    let ty = after.values[raw as int].ty;
    &&& interned(before, &mid, shape, ty)
    &&& constant_interned(&mid, after, ty, bits, Seq::empty(), raw)
}

/// A Rust type that can be represented as a type of the arena, and whose
/// values can be represented as constants of that type.
///
/// Each such type has exactly one type of the arena standing for it, and
/// each of its values exactly one constant; both stay what they are while
/// the arena grows.
pub trait Compile: Sized {
    /// Whether the type `raw` of `ctx` is the one that stands for `Self`.
    spec fn stands_for(ctx: &Context, raw: usize) -> bool;

    /// Whether the value `raw` of `ctx` is the constant that stands for this
    /// value.
    spec fn constant_of(self, ctx: &Context, raw: usize) -> bool;

    /// Compiles this value into a constant in the context given.
    fn compile(self, ctx: &mut Context) -> (v: Value)
        requires
            old(ctx).wf(),
        ensures
            final(ctx).wf(),
            old(ctx).types_kept_by(final(ctx)),
            old(ctx).values_kept_by(final(ctx)),
            final(ctx).value_known(v.raw),
            self.constant_of(final(ctx), v.raw),
    ;

    /// Gets the type that stands for `Self` in the context given.
    fn get_type(ctx: &mut Context) -> (ty: Type)
        requires
            old(ctx).wf(),
        ensures
            final(ctx).wf(),
            final(ctx).values == old(ctx).values,
            old(ctx).types_kept_by(final(ctx)),
            final(ctx).type_known(ty.raw),
            Self::stands_for(final(ctx), ty.raw),
    ;

    /// The type that stands for `Self` goes on doing so while the arena
    /// grows.
    proof fn stands_for_kept(before: &Context, after: &Context, raw: usize)
        requires
            before.types_kept_by(after),
            Self::stands_for(before, raw),
        ensures
            Self::stands_for(after, raw),
    ;

    /// No two types of an arena stand for `Self`.
    proof fn stands_for_one(ctx: &Context, a: usize, b: usize)
        requires
            Self::stands_for(ctx, a),
            Self::stands_for(ctx, b),
        ensures
            a == b,
    ;

    /// The constant that stands for a value goes on doing so while the arena
    /// grows.
    proof fn constant_kept(self, before: &Context, after: &Context, raw: usize)
        requires
            before.types_kept_by(after),
            before.values_kept_by(after),
            self.constant_of(before, raw),
        ensures
            self.constant_of(after, raw),
    ;

    /// No two constants of an arena stand for one value.
    proof fn constant_one(self, ctx: &Context, a: usize, b: usize)
        requires
            self.constant_of(ctx, a),
            self.constant_of(ctx, b),
        ensures
            a == b,
    ;
}

/// The first handle with a shape stays the first while the arena grows.
pub proof fn lemma_first_shape_kept(before: &Context, after: &Context, shape: TypeShape, raw: usize)
    requires
        before.types_kept_by(after),
        before.first_with_shape(shape, raw),
    ensures
        after.first_with_shape(shape, raw),
{
    assert(after.types[raw as int] == before.types[raw as int]);
    assert forall|j: int| 0 < j < raw implies (#[trigger] after.types[j])@ != shape by {
        assert(after.types[j] == before.types[j]);
    }
}

/// A shape has one first handle.
pub proof fn lemma_first_shape_one(ctx: &Context, shape: TypeShape, a: usize, b: usize)
    requires
        ctx.first_with_shape(shape, a),
        ctx.first_with_shape(shape, b),
    ensures
        a == b,
{
    if a < b {
        assert(ctx.types[a as int]@ != shape);
    } else if b < a {
        assert(ctx.types[b as int]@ != shape);
    }
}

/// The first handle of a constant stays the first while the arena grows.
pub proof fn lemma_first_constant_kept(
    before: &Context,
    after: &Context,
    ty: usize,
    bits: u64,
    members: Seq<usize>,
    raw: usize,
)
    requires
        before.values_kept_by(after),
        before.first_constant(ty, bits, members, raw),
    ensures
        after.first_constant(ty, bits, members, raw),
{
    assert(after.values[raw as int] == before.values[raw as int]);
    assert forall|j: int| 0 < j < raw implies !after.is_constant(j, ty, bits, members) by {
        assert(after.values[j] == before.values[j]);
        assert(!before.is_constant(j, ty, bits, members));
    }
}

/// A constant has one first handle.
pub proof fn lemma_first_constant_one(
    ctx: &Context,
    ty: usize,
    bits: u64,
    members: Seq<usize>,
    a: usize,
    b: usize,
)
    requires
        ctx.first_constant(ty, bits, members, a),
        ctx.first_constant(ty, bits, members, b),
    ensures
        a == b,
{
    if a < b {
        assert(!ctx.is_constant(a as int, ty, bits, members));
    } else if b < a {
        assert(!ctx.is_constant(b as int, ty, bits, members));
    }
}

/// Whether the value `raw` of `ctx` is the constant number with the bits
/// given, of the first type with the shape given.
pub open spec fn number_in(ctx: &Context, shape: TypeShape, bits: u64, raw: usize) -> bool {
    let ty = ctx.values[raw as int].ty;
    &&& ctx.value_known(raw)
    &&& ctx.first_with_shape(shape, ty)
    &&& ctx.first_constant(ty, bits, Seq::empty(), raw)
}

/// A constant number goes on being what it is while the arena grows.
pub proof fn lemma_number_kept(
    before: &Context,
    after: &Context,
    shape: TypeShape,
    bits: u64,
    raw: usize,
)
    requires
        before.types_kept_by(after),
        before.values_kept_by(after),
        number_in(before, shape, bits, raw),
    ensures
        number_in(after, shape, bits, raw),
{
    let ty = before.values[raw as int].ty;
    assert(after.values[raw as int] == before.values[raw as int]);
    lemma_first_shape_kept(before, after, shape, ty);
    lemma_first_constant_kept(before, after, ty, bits, Seq::empty(), raw);
}

/// A number of a shape has one constant.
pub proof fn lemma_number_one(ctx: &Context, shape: TypeShape, bits: u64, a: usize, b: usize)
    requires
        number_in(ctx, shape, bits, a),
        number_in(ctx, shape, bits, b),
    ensures
        a == b,
{
    let ta = ctx.values[a as int].ty;
    let tb = ctx.values[b as int].ty;
    lemma_first_shape_one(ctx, shape, ta, tb);
    lemma_first_constant_one(ctx, ta, bits, Seq::empty(), a, b);
}

/// Gets the unnamed type of the given kind that holds no other type.
pub fn scalar_type(ctx: &mut Context, kind: TypeKind, count: usize) -> (ty: Type)
    requires
        old(ctx).wf(),
        !kind.has_element(),
    ensures
        interned(old(ctx), final(ctx), scalar_shape(kind, count), ty.raw),
{
    let node = TypeNode { kind, element: 0, members: Vec::new(), count, packed: false, name: None };
    assert(node@ == scalar_shape(kind, count));
    Type { raw: ctx.intern(node) }
}

/// Gets the constant with the bits given, of the unnamed type of the given
/// kind that holds no other type.
pub fn scalar_constant(ctx: &mut Context, kind: TypeKind, count: usize, bits: u64) -> (v: Value)
    requires
        old(ctx).wf(),
        !kind.has_element(),
    ensures
        compiled(old(ctx), final(ctx), scalar_shape(kind, count), bits, v.raw),
        old(ctx).types_kept_by(final(ctx)),
        old(ctx).values_kept_by(final(ctx)),
        number_in(final(ctx), scalar_shape(kind, count), bits, v.raw),
{
    let ty = scalar_type(ctx, kind, count);
    let ghost mid = *ctx;
    let raw = ctx.intern_constant(ty.raw, bits, Vec::new());
    proof {
        assert(with_types_of(old(ctx), ctx).types == mid.types);
        assert(with_types_of(old(ctx), ctx).values == mid.values);
        assert(with_types_of(old(ctx), ctx) == mid);
    }
    Value { raw }
}

/// The parameters of a native function that takes an argument of the type
/// `arg`: the fields of `arg` where it is a struct, as a tuple is, and else
/// `arg` alone.
pub open spec fn parameters_of(ctx: &Context, arg: Type) -> Seq<Type> {
    if ctx.types[arg.raw as int].kind == TypeKind::Struct {
        types_of(ctx.types[arg.raw as int].members@)
    } else {
        seq![arg]
    }
}

/// Gets the signature of a native function that takes an `A` and returns an
/// `R`, which is the type that stands for a Rust function of that argument
/// and result. The type of `R` is asked for first, then that of `A`; both
/// are returned with the signature.
pub fn function_type<R: Compile, A: Compile>(ctx: &mut Context) -> (r: (FunctionType, Type, Type))
    requires
        old(ctx).wf(),
    ensures
        final(ctx).wf(),
        final(ctx).values == old(ctx).values,
        old(ctx).types_kept_by(final(ctx)),
        R::stands_for(final(ctx), r.1.raw),
        A::stands_for(final(ctx), r.2.raw),
        final(ctx).first_with_shape(
            FunctionType::shape(r.1, parameters_of(final(ctx), r.2)),
            r.0.raw,
        ),
        final(ctx).types[r.0.raw as int].kind == TypeKind::Function,
{
    let ret = R::get_type(ctx);
    let ghost c0 = *ctx;
    let arg = A::get_type(ctx);
    let ghost c1 = *ctx;
    let params = if arg.is_struct(ctx) {
        (StructType { raw: arg.raw }).get_elements(ctx)
    } else {
        let mut one: Vec<Type> = Vec::new();
        one.push(arg);
        assert(one@ =~= seq![arg]);
        one
    };
    proof {
        R::stands_for_kept(&c0, &c1, ret.raw);
        assert(params@ == parameters_of(&c1, arg));
        assert forall|i: int| 0 <= i < params@.len() implies ctx.type_known(
            #[trigger] params@[i].raw,
        ) by {
            if !(ctx.types[arg.raw as int].kind == TypeKind::Struct) {
                assert(params@[i] == arg);
            }
        }
    }
    let sig = FunctionType::new(ctx, &ret, params.as_slice());
    proof {
        R::stands_for_kept(&c1, ctx, ret.raw);
        A::stands_for_kept(&c1, ctx, arg.raw);
        assert(ctx.types[arg.raw as int] == c1.types[arg.raw as int]);
        assert(parameters_of(ctx, arg) == parameters_of(&c1, arg));
    }
    (sig, ret, arg)
}

impl Compile for bool {
    open spec fn stands_for(ctx: &Context, raw: usize) -> bool {
        ctx.first_with_shape(scalar_shape(TypeKind::Integer, 1), raw)
    }

    open spec fn constant_of(self, ctx: &Context, raw: usize) -> bool {
        number_in(ctx, scalar_shape(TypeKind::Integer, 1), (if self {
            1u64
        } else {
            0u64
        }), raw)
    }

    fn compile(self, ctx: &mut Context) -> (v: Value)
        ensures
            compiled(old(ctx), final(ctx), scalar_shape(TypeKind::Integer, 1), (if self {
            1u64
        } else {
            0u64
        }), v.raw),
    {
        let bits: u64 = if self {
            1
        } else {
            0
        };
        scalar_constant(ctx, TypeKind::Integer, 1, bits)
    }

    fn get_type(ctx: &mut Context) -> (ty: Type)
        ensures
            interned(old(ctx), final(ctx), scalar_shape(TypeKind::Integer, 1), ty.raw),
    {
        scalar_type(ctx, TypeKind::Integer, 1)
    }

    proof fn stands_for_kept(before: &Context, after: &Context, raw: usize) {
        lemma_first_shape_kept(before, after, scalar_shape(TypeKind::Integer, 1), raw);
    }

    proof fn stands_for_one(ctx: &Context, a: usize, b: usize) {
        lemma_first_shape_one(ctx, scalar_shape(TypeKind::Integer, 1), a, b);
    }

    proof fn constant_kept(self, before: &Context, after: &Context, raw: usize) {
        lemma_number_kept(before, after, scalar_shape(TypeKind::Integer, 1), (if self {
            1u64
        } else {
            0u64
        }), raw);
    }

    proof fn constant_one(self, ctx: &Context, a: usize, b: usize) {
        lemma_number_one(ctx, scalar_shape(TypeKind::Integer, 1), (if self {
            1u64
        } else {
            0u64
        }), a, b);
    }
}

impl Compile for char {
    open spec fn stands_for(ctx: &Context, raw: usize) -> bool {
        ctx.first_with_shape(scalar_shape(TypeKind::Integer, 32), raw)
    }

    open spec fn constant_of(self, ctx: &Context, raw: usize) -> bool {
        number_in(ctx, scalar_shape(TypeKind::Integer, 32), self as u32 as u64, raw)
    }

    fn compile(self, ctx: &mut Context) -> (v: Value)
        ensures
            compiled(old(ctx), final(ctx), scalar_shape(TypeKind::Integer, 32), self as u32 as u64, v.raw),
    {
        let bits: u64 = self as u32 as u64;
        scalar_constant(ctx, TypeKind::Integer, 32, bits)
    }

    fn get_type(ctx: &mut Context) -> (ty: Type)
        ensures
            interned(old(ctx), final(ctx), scalar_shape(TypeKind::Integer, 32), ty.raw),
    {
        scalar_type(ctx, TypeKind::Integer, 32)
    }

    proof fn stands_for_kept(before: &Context, after: &Context, raw: usize) {
        lemma_first_shape_kept(before, after, scalar_shape(TypeKind::Integer, 32), raw);
    }

    proof fn stands_for_one(ctx: &Context, a: usize, b: usize) {
        lemma_first_shape_one(ctx, scalar_shape(TypeKind::Integer, 32), a, b);
    }

    proof fn constant_kept(self, before: &Context, after: &Context, raw: usize) {
        lemma_number_kept(before, after, scalar_shape(TypeKind::Integer, 32), self as u32 as u64, raw);
    }

    proof fn constant_one(self, ctx: &Context, a: usize, b: usize) {
        lemma_number_one(ctx, scalar_shape(TypeKind::Integer, 32), self as u32 as u64, a, b);
    }
}

impl Compile for () {
    open spec fn stands_for(ctx: &Context, raw: usize) -> bool {
        ctx.first_with_shape(scalar_shape(TypeKind::Void, 0), raw)
    }

    open spec fn constant_of(self, ctx: &Context, raw: usize) -> bool {
        number_in(ctx, scalar_shape(TypeKind::Void, 0), 0, raw)
    }

    fn compile(self, ctx: &mut Context) -> (v: Value)
        ensures
            compiled(old(ctx), final(ctx), scalar_shape(TypeKind::Void, 0), 0, v.raw),
    {
        let bits: u64 = 0;
        scalar_constant(ctx, TypeKind::Void, 0, bits)
    }

    fn get_type(ctx: &mut Context) -> (ty: Type)
        ensures
            interned(old(ctx), final(ctx), scalar_shape(TypeKind::Void, 0), ty.raw),
    {
        scalar_type(ctx, TypeKind::Void, 0)
    }

    proof fn stands_for_kept(before: &Context, after: &Context, raw: usize) {
        lemma_first_shape_kept(before, after, scalar_shape(TypeKind::Void, 0), raw);
    }

    proof fn stands_for_one(ctx: &Context, a: usize, b: usize) {
        lemma_first_shape_one(ctx, scalar_shape(TypeKind::Void, 0), a, b);
    }

    proof fn constant_kept(self, before: &Context, after: &Context, raw: usize) {
        lemma_number_kept(before, after, scalar_shape(TypeKind::Void, 0), 0, raw);
    }

    proof fn constant_one(self, ctx: &Context, a: usize, b: usize) {
        lemma_number_one(ctx, scalar_shape(TypeKind::Void, 0), 0, a, b);
    }
}

impl Compile for u8 {
    open spec fn stands_for(ctx: &Context, raw: usize) -> bool {
        ctx.first_with_shape(scalar_shape(TypeKind::Integer, 8), raw)
    }

    open spec fn constant_of(self, ctx: &Context, raw: usize) -> bool {
        number_in(ctx, scalar_shape(TypeKind::Integer, 8), self as u64, raw)
    }

    fn compile(self, ctx: &mut Context) -> (v: Value)
        ensures
            compiled(old(ctx), final(ctx), scalar_shape(TypeKind::Integer, 8), self as u64, v.raw),
    {
        let bits: u64 = self as u64;
        scalar_constant(ctx, TypeKind::Integer, 8, bits)
    }

    fn get_type(ctx: &mut Context) -> (ty: Type)
        ensures
            interned(old(ctx), final(ctx), scalar_shape(TypeKind::Integer, 8), ty.raw),
    {
        scalar_type(ctx, TypeKind::Integer, 8)
    }

    proof fn stands_for_kept(before: &Context, after: &Context, raw: usize) {
        lemma_first_shape_kept(before, after, scalar_shape(TypeKind::Integer, 8), raw);
    }

    proof fn stands_for_one(ctx: &Context, a: usize, b: usize) {
        lemma_first_shape_one(ctx, scalar_shape(TypeKind::Integer, 8), a, b);
    }

    proof fn constant_kept(self, before: &Context, after: &Context, raw: usize) {
        lemma_number_kept(before, after, scalar_shape(TypeKind::Integer, 8), self as u64, raw);
    }

    proof fn constant_one(self, ctx: &Context, a: usize, b: usize) {
        lemma_number_one(ctx, scalar_shape(TypeKind::Integer, 8), self as u64, a, b);
    }
}

impl Compile for u16 {
    open spec fn stands_for(ctx: &Context, raw: usize) -> bool {
        ctx.first_with_shape(scalar_shape(TypeKind::Integer, 16), raw)
    }

    open spec fn constant_of(self, ctx: &Context, raw: usize) -> bool {
        number_in(ctx, scalar_shape(TypeKind::Integer, 16), self as u64, raw)
    }

    fn compile(self, ctx: &mut Context) -> (v: Value)
        ensures
            compiled(old(ctx), final(ctx), scalar_shape(TypeKind::Integer, 16), self as u64, v.raw),
    {
        let bits: u64 = self as u64;
        scalar_constant(ctx, TypeKind::Integer, 16, bits)
    }

    fn get_type(ctx: &mut Context) -> (ty: Type)
        ensures
            interned(old(ctx), final(ctx), scalar_shape(TypeKind::Integer, 16), ty.raw),
    {
        scalar_type(ctx, TypeKind::Integer, 16)
    }

    proof fn stands_for_kept(before: &Context, after: &Context, raw: usize) {
        lemma_first_shape_kept(before, after, scalar_shape(TypeKind::Integer, 16), raw);
    }

    proof fn stands_for_one(ctx: &Context, a: usize, b: usize) {
        lemma_first_shape_one(ctx, scalar_shape(TypeKind::Integer, 16), a, b);
    }

    proof fn constant_kept(self, before: &Context, after: &Context, raw: usize) {
        lemma_number_kept(before, after, scalar_shape(TypeKind::Integer, 16), self as u64, raw);
    }

    proof fn constant_one(self, ctx: &Context, a: usize, b: usize) {
        lemma_number_one(ctx, scalar_shape(TypeKind::Integer, 16), self as u64, a, b);
    }
}

impl Compile for u32 {
    open spec fn stands_for(ctx: &Context, raw: usize) -> bool {
        ctx.first_with_shape(scalar_shape(TypeKind::Integer, 32), raw)
    }

    open spec fn constant_of(self, ctx: &Context, raw: usize) -> bool {
        number_in(ctx, scalar_shape(TypeKind::Integer, 32), self as u64, raw)
    }

    fn compile(self, ctx: &mut Context) -> (v: Value)
        ensures
            compiled(old(ctx), final(ctx), scalar_shape(TypeKind::Integer, 32), self as u64, v.raw),
    {
        let bits: u64 = self as u64;
        scalar_constant(ctx, TypeKind::Integer, 32, bits)
    }

    fn get_type(ctx: &mut Context) -> (ty: Type)
        ensures
            interned(old(ctx), final(ctx), scalar_shape(TypeKind::Integer, 32), ty.raw),
    {
        scalar_type(ctx, TypeKind::Integer, 32)
    }

    proof fn stands_for_kept(before: &Context, after: &Context, raw: usize) {
        lemma_first_shape_kept(before, after, scalar_shape(TypeKind::Integer, 32), raw);
    }

    proof fn stands_for_one(ctx: &Context, a: usize, b: usize) {
        lemma_first_shape_one(ctx, scalar_shape(TypeKind::Integer, 32), a, b);
    }

    proof fn constant_kept(self, before: &Context, after: &Context, raw: usize) {
        lemma_number_kept(before, after, scalar_shape(TypeKind::Integer, 32), self as u64, raw);
    }

    proof fn constant_one(self, ctx: &Context, a: usize, b: usize) {
        lemma_number_one(ctx, scalar_shape(TypeKind::Integer, 32), self as u64, a, b);
    }
}

impl Compile for u64 {
    open spec fn stands_for(ctx: &Context, raw: usize) -> bool {
        ctx.first_with_shape(scalar_shape(TypeKind::Integer, 64), raw)
    }

    open spec fn constant_of(self, ctx: &Context, raw: usize) -> bool {
        number_in(ctx, scalar_shape(TypeKind::Integer, 64), self as u64, raw)
    }

    fn compile(self, ctx: &mut Context) -> (v: Value)
        ensures
            compiled(old(ctx), final(ctx), scalar_shape(TypeKind::Integer, 64), self as u64, v.raw),
    {
        let bits: u64 = self as u64;
        scalar_constant(ctx, TypeKind::Integer, 64, bits)
    }

    fn get_type(ctx: &mut Context) -> (ty: Type)
        ensures
            interned(old(ctx), final(ctx), scalar_shape(TypeKind::Integer, 64), ty.raw),
    {
        scalar_type(ctx, TypeKind::Integer, 64)
    }

    proof fn stands_for_kept(before: &Context, after: &Context, raw: usize) {
        lemma_first_shape_kept(before, after, scalar_shape(TypeKind::Integer, 64), raw);
    }

    proof fn stands_for_one(ctx: &Context, a: usize, b: usize) {
        lemma_first_shape_one(ctx, scalar_shape(TypeKind::Integer, 64), a, b);
    }

    proof fn constant_kept(self, before: &Context, after: &Context, raw: usize) {
        lemma_number_kept(before, after, scalar_shape(TypeKind::Integer, 64), self as u64, raw);
    }

    proof fn constant_one(self, ctx: &Context, a: usize, b: usize) {
        lemma_number_one(ctx, scalar_shape(TypeKind::Integer, 64), self as u64, a, b);
    }
}

impl Compile for i8 {
    open spec fn stands_for(ctx: &Context, raw: usize) -> bool {
        ctx.first_with_shape(scalar_shape(TypeKind::Integer, 8), raw)
    }

    open spec fn constant_of(self, ctx: &Context, raw: usize) -> bool {
        number_in(ctx, scalar_shape(TypeKind::Integer, 8), self as u64, raw)
    }

    fn compile(self, ctx: &mut Context) -> (v: Value)
        ensures
            compiled(old(ctx), final(ctx), scalar_shape(TypeKind::Integer, 8), self as u64, v.raw),
    {
        let bits: u64 = #[verifier::truncate]
        (self as u64);
        scalar_constant(ctx, TypeKind::Integer, 8, bits)
    }

    fn get_type(ctx: &mut Context) -> (ty: Type)
        ensures
            interned(old(ctx), final(ctx), scalar_shape(TypeKind::Integer, 8), ty.raw),
    {
        scalar_type(ctx, TypeKind::Integer, 8)
    }

    proof fn stands_for_kept(before: &Context, after: &Context, raw: usize) {
        lemma_first_shape_kept(before, after, scalar_shape(TypeKind::Integer, 8), raw);
    }

    proof fn stands_for_one(ctx: &Context, a: usize, b: usize) {
        lemma_first_shape_one(ctx, scalar_shape(TypeKind::Integer, 8), a, b);
    }

    proof fn constant_kept(self, before: &Context, after: &Context, raw: usize) {
        lemma_number_kept(before, after, scalar_shape(TypeKind::Integer, 8), self as u64, raw);
    }

    proof fn constant_one(self, ctx: &Context, a: usize, b: usize) {
        lemma_number_one(ctx, scalar_shape(TypeKind::Integer, 8), self as u64, a, b);
    }
}

impl Compile for i16 {
    open spec fn stands_for(ctx: &Context, raw: usize) -> bool {
        ctx.first_with_shape(scalar_shape(TypeKind::Integer, 16), raw)
    }

    open spec fn constant_of(self, ctx: &Context, raw: usize) -> bool {
        number_in(ctx, scalar_shape(TypeKind::Integer, 16), self as u64, raw)
    }

    fn compile(self, ctx: &mut Context) -> (v: Value)
        ensures
            compiled(old(ctx), final(ctx), scalar_shape(TypeKind::Integer, 16), self as u64, v.raw),
    {
        let bits: u64 = #[verifier::truncate]
        (self as u64);
        scalar_constant(ctx, TypeKind::Integer, 16, bits)
    }

    fn get_type(ctx: &mut Context) -> (ty: Type)
        ensures
            interned(old(ctx), final(ctx), scalar_shape(TypeKind::Integer, 16), ty.raw),
    {
        scalar_type(ctx, TypeKind::Integer, 16)
    }

    proof fn stands_for_kept(before: &Context, after: &Context, raw: usize) {
        lemma_first_shape_kept(before, after, scalar_shape(TypeKind::Integer, 16), raw);
    }

    proof fn stands_for_one(ctx: &Context, a: usize, b: usize) {
        lemma_first_shape_one(ctx, scalar_shape(TypeKind::Integer, 16), a, b);
    }

    proof fn constant_kept(self, before: &Context, after: &Context, raw: usize) {
        lemma_number_kept(before, after, scalar_shape(TypeKind::Integer, 16), self as u64, raw);
    }

    proof fn constant_one(self, ctx: &Context, a: usize, b: usize) {
        lemma_number_one(ctx, scalar_shape(TypeKind::Integer, 16), self as u64, a, b);
    }
}

impl Compile for i32 {
    open spec fn stands_for(ctx: &Context, raw: usize) -> bool {
        ctx.first_with_shape(scalar_shape(TypeKind::Integer, 32), raw)
    }

    open spec fn constant_of(self, ctx: &Context, raw: usize) -> bool {
        number_in(ctx, scalar_shape(TypeKind::Integer, 32), self as u64, raw)
    }

    fn compile(self, ctx: &mut Context) -> (v: Value)
        ensures
            compiled(old(ctx), final(ctx), scalar_shape(TypeKind::Integer, 32), self as u64, v.raw),
    {
        let bits: u64 = #[verifier::truncate]
        (self as u64);
        scalar_constant(ctx, TypeKind::Integer, 32, bits)
    }

    fn get_type(ctx: &mut Context) -> (ty: Type)
        ensures
            interned(old(ctx), final(ctx), scalar_shape(TypeKind::Integer, 32), ty.raw),
    {
        scalar_type(ctx, TypeKind::Integer, 32)
    }

    proof fn stands_for_kept(before: &Context, after: &Context, raw: usize) {
        lemma_first_shape_kept(before, after, scalar_shape(TypeKind::Integer, 32), raw);
    }

    proof fn stands_for_one(ctx: &Context, a: usize, b: usize) {
        lemma_first_shape_one(ctx, scalar_shape(TypeKind::Integer, 32), a, b);
    }

    proof fn constant_kept(self, before: &Context, after: &Context, raw: usize) {
        lemma_number_kept(before, after, scalar_shape(TypeKind::Integer, 32), self as u64, raw);
    }

    proof fn constant_one(self, ctx: &Context, a: usize, b: usize) {
        lemma_number_one(ctx, scalar_shape(TypeKind::Integer, 32), self as u64, a, b);
    }
}

impl Compile for i64 {
    open spec fn stands_for(ctx: &Context, raw: usize) -> bool {
        ctx.first_with_shape(scalar_shape(TypeKind::Integer, 64), raw)
    }

    open spec fn constant_of(self, ctx: &Context, raw: usize) -> bool {
        number_in(ctx, scalar_shape(TypeKind::Integer, 64), self as u64, raw)
    }

    fn compile(self, ctx: &mut Context) -> (v: Value)
        ensures
            compiled(old(ctx), final(ctx), scalar_shape(TypeKind::Integer, 64), self as u64, v.raw),
    {
        let bits: u64 = #[verifier::truncate]
        (self as u64);
        scalar_constant(ctx, TypeKind::Integer, 64, bits)
    }

    fn get_type(ctx: &mut Context) -> (ty: Type)
        ensures
            interned(old(ctx), final(ctx), scalar_shape(TypeKind::Integer, 64), ty.raw),
    {
        scalar_type(ctx, TypeKind::Integer, 64)
    }

    proof fn stands_for_kept(before: &Context, after: &Context, raw: usize) {
        lemma_first_shape_kept(before, after, scalar_shape(TypeKind::Integer, 64), raw);
    }

    proof fn stands_for_one(ctx: &Context, a: usize, b: usize) {
        lemma_first_shape_one(ctx, scalar_shape(TypeKind::Integer, 64), a, b);
    }

    proof fn constant_kept(self, before: &Context, after: &Context, raw: usize) {
        lemma_number_kept(before, after, scalar_shape(TypeKind::Integer, 64), self as u64, raw);
    }

    proof fn constant_one(self, ctx: &Context, a: usize, b: usize) {
        lemma_number_one(ctx, scalar_shape(TypeKind::Integer, 64), self as u64, a, b);
    }
}

/// A tuple of two is a struct of two fields, not packed.
impl<A: Compile, B: Compile> Compile for (A, B) {
    open spec fn stands_for(ctx: &Context, raw: usize) -> bool {
        let node = ctx.types[raw as int]@;
        &&& ctx.type_known(raw)
        &&& node.kind == TypeKind::Struct
        &&& node.element == 0
        &&& node.count == 0
        &&& !node.packed
        &&& node.name.is_none()
        &&& node.members.len() == 2
        &&& A::stands_for(ctx, node.members[0])
        &&& B::stands_for(ctx, node.members[1])
        &&& ctx.first_with_shape(node, raw)
    }

    open spec fn constant_of(self, ctx: &Context, raw: usize) -> bool {
        let node = ctx.values[raw as int];
        &&& ctx.value_known(raw)
        &&& Self::stands_for(ctx, node.ty)
        &&& node.members.len() == 2
        &&& self.0.constant_of(ctx, node.members[0])
        &&& self.1.constant_of(ctx, node.members[1])
        &&& ctx.first_constant(node.ty, 0, node.members@, raw)
    }

    fn compile(self, ctx: &mut Context) -> (v: Value) {
        let (a, b) = self;
        let v0 = a.compile(ctx);
        let ghost c0 = *ctx;
        let v1 = b.compile(ctx);
        let ghost c1 = *ctx;
        let ty = Self::get_type(ctx);
        let ghost typed = *ctx;
        let mut members: Vec<usize> = Vec::new();
        members.push(v0.raw);
        members.push(v1.raw);
        proof {
            assert(typed.value_known(v0.raw));
            assert(typed.value_known(v1.raw));
        }
        let raw = ctx.intern_constant(ty.raw, 0, members);
        proof {
            let node = ctx.values[raw as int];
            assert(node.members@[0] == v0.raw);
            self.0.constant_kept(&c0, &c1, v0.raw);
            self.0.constant_kept(&c1, &typed, v0.raw);
            self.0.constant_kept(&typed, ctx, v0.raw);
            assert(node.members@[1] == v1.raw);
            self.1.constant_kept(&c1, &typed, v1.raw);
            self.1.constant_kept(&typed, ctx, v1.raw);
            Self::stands_for_kept(&typed, ctx, ty.raw);
        }
        Value { raw }
    }

    fn get_type(ctx: &mut Context) -> (ty: Type) {
        let t0 = A::get_type(ctx);
        let ghost c0 = *ctx;
        let t1 = B::get_type(ctx);
        let ghost c1 = *ctx;
        let mut fields: Vec<Type> = Vec::new();
        fields.push(t0);
        fields.push(t1);
        proof {
            A::stands_for_kept(&c0, &c1, t0.raw);
            assert(c1.type_known(t0.raw));
            assert(c1.type_known(t1.raw));
            assert forall|i: int| 0 <= i < fields@.len() implies ctx.type_known(
                #[trigger] fields@[i].raw,
            ) by {
                assert(fields@[0] == t0);
                assert(fields@[1] == t1);
            }
        }
        let ty = StructType::new(ctx, fields.as_slice(), false);
        proof {
            let node = ctx.types[ty.raw as int]@;
            assert(node == StructType::shape(fields@, false));
            assert(node.members[0] == t0.raw);
            A::stands_for_kept(&c1, ctx, t0.raw);
            assert(node.members[1] == t1.raw);
            B::stands_for_kept(&c1, ctx, t1.raw);
        }
        Type { raw: ty.raw }
    }

    proof fn stands_for_kept(before: &Context, after: &Context, raw: usize) {
        let node = before.types[raw as int]@;
        assert(after.types[raw as int] == before.types[raw as int]);
        A::stands_for_kept(before, after, node.members[0]);
        B::stands_for_kept(before, after, node.members[1]);
        lemma_first_shape_kept(before, after, node, raw);
    }

    proof fn stands_for_one(ctx: &Context, a: usize, b: usize) {
        let na = ctx.types[a as int]@;
        let nb = ctx.types[b as int]@;
        A::stands_for_one(ctx, na.members[0], nb.members[0]);
        B::stands_for_one(ctx, na.members[1], nb.members[1]);
        assert(na.members =~= nb.members);
        assert(na == nb);
        lemma_first_shape_one(ctx, na, a, b);
    }

    proof fn constant_kept(self, before: &Context, after: &Context, raw: usize) {
        let node = before.values[raw as int];
        assert(after.values[raw as int] == before.values[raw as int]);
        Self::stands_for_kept(before, after, node.ty);
        self.0.constant_kept(before, after, node.members[0]);
        self.1.constant_kept(before, after, node.members[1]);
        lemma_first_constant_kept(before, after, node.ty, 0, node.members@, raw);
    }

    proof fn constant_one(self, ctx: &Context, a: usize, b: usize) {
        let na = ctx.values[a as int];
        let nb = ctx.values[b as int];
        Self::stands_for_one(ctx, na.ty, nb.ty);
        self.0.constant_one(ctx, na.members[0], nb.members[0]);
        self.1.constant_one(ctx, na.members[1], nb.members[1]);
        assert(na.members@ =~= nb.members@);
        lemma_first_constant_one(ctx, na.ty, 0, na.members@, a, b);
    }
}

/// A tuple of three is a struct of three fields, not packed.
impl<A: Compile, B: Compile, C: Compile> Compile for (A, B, C) {
    open spec fn stands_for(ctx: &Context, raw: usize) -> bool {
        let node = ctx.types[raw as int]@;
        &&& ctx.type_known(raw)
        &&& node.kind == TypeKind::Struct
        &&& node.element == 0
        &&& node.count == 0
        &&& !node.packed
        &&& node.name.is_none()
        &&& node.members.len() == 3
        &&& A::stands_for(ctx, node.members[0])
        &&& B::stands_for(ctx, node.members[1])
        &&& C::stands_for(ctx, node.members[2])
        &&& ctx.first_with_shape(node, raw)
    }

    open spec fn constant_of(self, ctx: &Context, raw: usize) -> bool {
        let node = ctx.values[raw as int];
        &&& ctx.value_known(raw)
        &&& Self::stands_for(ctx, node.ty)
        &&& node.members.len() == 3
        &&& self.0.constant_of(ctx, node.members[0])
        &&& self.1.constant_of(ctx, node.members[1])
        &&& self.2.constant_of(ctx, node.members[2])
        &&& ctx.first_constant(node.ty, 0, node.members@, raw)
    }

    fn compile(self, ctx: &mut Context) -> (v: Value) {
        let (a, b, c) = self;
        let v0 = a.compile(ctx);
        let ghost c0 = *ctx;
        let v1 = b.compile(ctx);
        let ghost c1 = *ctx;
        let v2 = c.compile(ctx);
        let ghost c2 = *ctx;
        let ty = Self::get_type(ctx);
        let ghost typed = *ctx;
        let mut members: Vec<usize> = Vec::new();
        members.push(v0.raw);
        members.push(v1.raw);
        members.push(v2.raw);
        proof {
            assert(typed.value_known(v0.raw));
            assert(typed.value_known(v1.raw));
            assert(typed.value_known(v2.raw));
        }
        let raw = ctx.intern_constant(ty.raw, 0, members);
        proof {
            let node = ctx.values[raw as int];
            assert(node.members@[0] == v0.raw);
            self.0.constant_kept(&c0, &c1, v0.raw);
            self.0.constant_kept(&c1, &c2, v0.raw);
            self.0.constant_kept(&c2, &typed, v0.raw);
            self.0.constant_kept(&typed, ctx, v0.raw);
            assert(node.members@[1] == v1.raw);
            self.1.constant_kept(&c1, &c2, v1.raw);
            self.1.constant_kept(&c2, &typed, v1.raw);
            self.1.constant_kept(&typed, ctx, v1.raw);
            assert(node.members@[2] == v2.raw);
            self.2.constant_kept(&c2, &typed, v2.raw);
            self.2.constant_kept(&typed, ctx, v2.raw);
            Self::stands_for_kept(&typed, ctx, ty.raw);
        }
        Value { raw }
    }

    fn get_type(ctx: &mut Context) -> (ty: Type) {
        let t0 = A::get_type(ctx);
        let ghost c0 = *ctx;
        let t1 = B::get_type(ctx);
        let ghost c1 = *ctx;
        let t2 = C::get_type(ctx);
        let ghost c2 = *ctx;
        let mut fields: Vec<Type> = Vec::new();
        fields.push(t0);
        fields.push(t1);
        fields.push(t2);
        proof {
            A::stands_for_kept(&c0, &c1, t0.raw);
            A::stands_for_kept(&c1, &c2, t0.raw);
            assert(c2.type_known(t0.raw));
            B::stands_for_kept(&c1, &c2, t1.raw);
            assert(c2.type_known(t1.raw));
            assert(c2.type_known(t2.raw));
            assert forall|i: int| 0 <= i < fields@.len() implies ctx.type_known(
                #[trigger] fields@[i].raw,
            ) by {
                assert(fields@[0] == t0);
                assert(fields@[1] == t1);
                assert(fields@[2] == t2);
            }
        }
        let ty = StructType::new(ctx, fields.as_slice(), false);
        proof {
            let node = ctx.types[ty.raw as int]@;
            assert(node == StructType::shape(fields@, false));
            assert(node.members[0] == t0.raw);
            A::stands_for_kept(&c2, ctx, t0.raw);
            assert(node.members[1] == t1.raw);
            B::stands_for_kept(&c2, ctx, t1.raw);
            assert(node.members[2] == t2.raw);
            C::stands_for_kept(&c2, ctx, t2.raw);
        }
        Type { raw: ty.raw }
    }

    proof fn stands_for_kept(before: &Context, after: &Context, raw: usize) {
        let node = before.types[raw as int]@;
        assert(after.types[raw as int] == before.types[raw as int]);
        A::stands_for_kept(before, after, node.members[0]);
        B::stands_for_kept(before, after, node.members[1]);
        C::stands_for_kept(before, after, node.members[2]);
        lemma_first_shape_kept(before, after, node, raw);
    }

    proof fn stands_for_one(ctx: &Context, a: usize, b: usize) {
        let na = ctx.types[a as int]@;
        let nb = ctx.types[b as int]@;
        A::stands_for_one(ctx, na.members[0], nb.members[0]);
        B::stands_for_one(ctx, na.members[1], nb.members[1]);
        C::stands_for_one(ctx, na.members[2], nb.members[2]);
        assert(na.members =~= nb.members);
        assert(na == nb);
        lemma_first_shape_one(ctx, na, a, b);
    }

    proof fn constant_kept(self, before: &Context, after: &Context, raw: usize) {
        let node = before.values[raw as int];
        assert(after.values[raw as int] == before.values[raw as int]);
        Self::stands_for_kept(before, after, node.ty);
        self.0.constant_kept(before, after, node.members[0]);
        self.1.constant_kept(before, after, node.members[1]);
        self.2.constant_kept(before, after, node.members[2]);
        lemma_first_constant_kept(before, after, node.ty, 0, node.members@, raw);
    }

    proof fn constant_one(self, ctx: &Context, a: usize, b: usize) {
        let na = ctx.values[a as int];
        let nb = ctx.values[b as int];
        Self::stands_for_one(ctx, na.ty, nb.ty);
        self.0.constant_one(ctx, na.members[0], nb.members[0]);
        self.1.constant_one(ctx, na.members[1], nb.members[1]);
        self.2.constant_one(ctx, na.members[2], nb.members[2]);
        assert(na.members@ =~= nb.members@);
        lemma_first_constant_one(ctx, na.ty, 0, na.members@, a, b);
    }
}

/// A tuple of four is a struct of four fields, not packed.
impl<A: Compile, B: Compile, C: Compile, D: Compile> Compile for (A, B, C, D) {
    open spec fn stands_for(ctx: &Context, raw: usize) -> bool {
        let node = ctx.types[raw as int]@;
        &&& ctx.type_known(raw)
        &&& node.kind == TypeKind::Struct
        &&& node.element == 0
        &&& node.count == 0
        &&& !node.packed
        &&& node.name.is_none()
        &&& node.members.len() == 4
        &&& A::stands_for(ctx, node.members[0])
        &&& B::stands_for(ctx, node.members[1])
        &&& C::stands_for(ctx, node.members[2])
        &&& D::stands_for(ctx, node.members[3])
        &&& ctx.first_with_shape(node, raw)
    }

    open spec fn constant_of(self, ctx: &Context, raw: usize) -> bool {
        let node = ctx.values[raw as int];
        &&& ctx.value_known(raw)
        &&& Self::stands_for(ctx, node.ty)
        &&& node.members.len() == 4
        &&& self.0.constant_of(ctx, node.members[0])
        &&& self.1.constant_of(ctx, node.members[1])
        &&& self.2.constant_of(ctx, node.members[2])
        &&& self.3.constant_of(ctx, node.members[3])
        &&& ctx.first_constant(node.ty, 0, node.members@, raw)
    }

    fn compile(self, ctx: &mut Context) -> (v: Value) {
        let (a, b, c, d) = self;
        let v0 = a.compile(ctx);
        let ghost c0 = *ctx;
        let v1 = b.compile(ctx);
        let ghost c1 = *ctx;
        let v2 = c.compile(ctx);
        let ghost c2 = *ctx;
        let v3 = d.compile(ctx);
        let ghost c3 = *ctx;
        let ty = Self::get_type(ctx);
        let ghost typed = *ctx;
        let mut members: Vec<usize> = Vec::new();
        members.push(v0.raw);
        members.push(v1.raw);
        members.push(v2.raw);
        members.push(v3.raw);
        proof {
            assert(typed.value_known(v0.raw));
            assert(typed.value_known(v1.raw));
            assert(typed.value_known(v2.raw));
            assert(typed.value_known(v3.raw));
        }
        let raw = ctx.intern_constant(ty.raw, 0, members);
        proof {
            let node = ctx.values[raw as int];
            assert(node.members@[0] == v0.raw);
            self.0.constant_kept(&c0, &c1, v0.raw);
            self.0.constant_kept(&c1, &c2, v0.raw);
            self.0.constant_kept(&c2, &c3, v0.raw);
            self.0.constant_kept(&c3, &typed, v0.raw);
            self.0.constant_kept(&typed, ctx, v0.raw);
            assert(node.members@[1] == v1.raw);
            self.1.constant_kept(&c1, &c2, v1.raw);
            self.1.constant_kept(&c2, &c3, v1.raw);
            self.1.constant_kept(&c3, &typed, v1.raw);
            self.1.constant_kept(&typed, ctx, v1.raw);
            assert(node.members@[2] == v2.raw);
            self.2.constant_kept(&c2, &c3, v2.raw);
            self.2.constant_kept(&c3, &typed, v2.raw);
            self.2.constant_kept(&typed, ctx, v2.raw);
            assert(node.members@[3] == v3.raw);
            self.3.constant_kept(&c3, &typed, v3.raw);
            self.3.constant_kept(&typed, ctx, v3.raw);
            Self::stands_for_kept(&typed, ctx, ty.raw);
        }
        Value { raw }
    }

    fn get_type(ctx: &mut Context) -> (ty: Type) {
        let t0 = A::get_type(ctx);
        let ghost c0 = *ctx;
        let t1 = B::get_type(ctx);
        let ghost c1 = *ctx;
        let t2 = C::get_type(ctx);
        let ghost c2 = *ctx;
        let t3 = D::get_type(ctx);
        let ghost c3 = *ctx;
        let mut fields: Vec<Type> = Vec::new();
        fields.push(t0);
        fields.push(t1);
        fields.push(t2);
        fields.push(t3);
        proof {
            A::stands_for_kept(&c0, &c1, t0.raw);
            A::stands_for_kept(&c1, &c2, t0.raw);
            A::stands_for_kept(&c2, &c3, t0.raw);
            assert(c3.type_known(t0.raw));
            B::stands_for_kept(&c1, &c2, t1.raw);
            B::stands_for_kept(&c2, &c3, t1.raw);
            assert(c3.type_known(t1.raw));
            C::stands_for_kept(&c2, &c3, t2.raw);
            assert(c3.type_known(t2.raw));
            assert(c3.type_known(t3.raw));
            assert forall|i: int| 0 <= i < fields@.len() implies ctx.type_known(
                #[trigger] fields@[i].raw,
            ) by {
                assert(fields@[0] == t0);
                assert(fields@[1] == t1);
                assert(fields@[2] == t2);
                assert(fields@[3] == t3);
            }
        }
        let ty = StructType::new(ctx, fields.as_slice(), false);
        proof {
            let node = ctx.types[ty.raw as int]@;
            assert(node == StructType::shape(fields@, false));
            assert(node.members[0] == t0.raw);
            A::stands_for_kept(&c3, ctx, t0.raw);
            assert(node.members[1] == t1.raw);
            B::stands_for_kept(&c3, ctx, t1.raw);
            assert(node.members[2] == t2.raw);
            C::stands_for_kept(&c3, ctx, t2.raw);
            assert(node.members[3] == t3.raw);
            D::stands_for_kept(&c3, ctx, t3.raw);
        }
        Type { raw: ty.raw }
    }

    proof fn stands_for_kept(before: &Context, after: &Context, raw: usize) {
        let node = before.types[raw as int]@;
        assert(after.types[raw as int] == before.types[raw as int]);
        A::stands_for_kept(before, after, node.members[0]);
        B::stands_for_kept(before, after, node.members[1]);
        C::stands_for_kept(before, after, node.members[2]);
        D::stands_for_kept(before, after, node.members[3]);
        lemma_first_shape_kept(before, after, node, raw);
    }

    proof fn stands_for_one(ctx: &Context, a: usize, b: usize) {
        let na = ctx.types[a as int]@;
        let nb = ctx.types[b as int]@;
        A::stands_for_one(ctx, na.members[0], nb.members[0]);
        B::stands_for_one(ctx, na.members[1], nb.members[1]);
        C::stands_for_one(ctx, na.members[2], nb.members[2]);
        D::stands_for_one(ctx, na.members[3], nb.members[3]);
        assert(na.members =~= nb.members);
        assert(na == nb);
        lemma_first_shape_one(ctx, na, a, b);
    }

    proof fn constant_kept(self, before: &Context, after: &Context, raw: usize) {
        let node = before.values[raw as int];
        assert(after.values[raw as int] == before.values[raw as int]);
        Self::stands_for_kept(before, after, node.ty);
        self.0.constant_kept(before, after, node.members[0]);
        self.1.constant_kept(before, after, node.members[1]);
        self.2.constant_kept(before, after, node.members[2]);
        self.3.constant_kept(before, after, node.members[3]);
        lemma_first_constant_kept(before, after, node.ty, 0, node.members@, raw);
    }

    proof fn constant_one(self, ctx: &Context, a: usize, b: usize) {
        let na = ctx.values[a as int];
        let nb = ctx.values[b as int];
        Self::stands_for_one(ctx, na.ty, nb.ty);
        self.0.constant_one(ctx, na.members[0], nb.members[0]);
        self.1.constant_one(ctx, na.members[1], nb.members[1]);
        self.2.constant_one(ctx, na.members[2], nb.members[2]);
        self.3.constant_one(ctx, na.members[3], nb.members[3]);
        assert(na.members@ =~= nb.members@);
        lemma_first_constant_one(ctx, na.ty, 0, na.members@, a, b);
    }
}

/// A tuple of five is a struct of five fields, not packed.
impl<A: Compile, B: Compile, C: Compile, D: Compile, E: Compile> Compile for (A, B, C, D, E) {
    open spec fn stands_for(ctx: &Context, raw: usize) -> bool {
        let node = ctx.types[raw as int]@;
        &&& ctx.type_known(raw)
        &&& node.kind == TypeKind::Struct
        &&& node.element == 0
        &&& node.count == 0
        &&& !node.packed
        &&& node.name.is_none()
        &&& node.members.len() == 5
        &&& A::stands_for(ctx, node.members[0])
        &&& B::stands_for(ctx, node.members[1])
        &&& C::stands_for(ctx, node.members[2])
        &&& D::stands_for(ctx, node.members[3])
        &&& E::stands_for(ctx, node.members[4])
        &&& ctx.first_with_shape(node, raw)
    }

    open spec fn constant_of(self, ctx: &Context, raw: usize) -> bool {
        let node = ctx.values[raw as int];
        &&& ctx.value_known(raw)
        &&& Self::stands_for(ctx, node.ty)
        &&& node.members.len() == 5
        &&& self.0.constant_of(ctx, node.members[0])
        &&& self.1.constant_of(ctx, node.members[1])
        &&& self.2.constant_of(ctx, node.members[2])
        &&& self.3.constant_of(ctx, node.members[3])
        &&& self.4.constant_of(ctx, node.members[4])
        &&& ctx.first_constant(node.ty, 0, node.members@, raw)
    }

    fn compile(self, ctx: &mut Context) -> (v: Value) {
        let (a, b, c, d, e) = self;
        let v0 = a.compile(ctx);
        let ghost c0 = *ctx;
        let v1 = b.compile(ctx);
        let ghost c1 = *ctx;
        let v2 = c.compile(ctx);
        let ghost c2 = *ctx;
        let v3 = d.compile(ctx);
        let ghost c3 = *ctx;
        let v4 = e.compile(ctx);
        let ghost c4 = *ctx;
        let ty = Self::get_type(ctx);
        let ghost typed = *ctx;
        let mut members: Vec<usize> = Vec::new();
        members.push(v0.raw);
        members.push(v1.raw);
        members.push(v2.raw);
        members.push(v3.raw);
        members.push(v4.raw);
        proof {
            assert(typed.value_known(v0.raw));
            assert(typed.value_known(v1.raw));
            assert(typed.value_known(v2.raw));
            assert(typed.value_known(v3.raw));
            assert(typed.value_known(v4.raw));
        }
        let raw = ctx.intern_constant(ty.raw, 0, members);
        proof {
            let node = ctx.values[raw as int];
            assert(node.members@[0] == v0.raw);
            self.0.constant_kept(&c0, &c1, v0.raw);
            self.0.constant_kept(&c1, &c2, v0.raw);
            self.0.constant_kept(&c2, &c3, v0.raw);
            self.0.constant_kept(&c3, &c4, v0.raw);
            self.0.constant_kept(&c4, &typed, v0.raw);
            self.0.constant_kept(&typed, ctx, v0.raw);
            assert(node.members@[1] == v1.raw);
            self.1.constant_kept(&c1, &c2, v1.raw);
            self.1.constant_kept(&c2, &c3, v1.raw);
            self.1.constant_kept(&c3, &c4, v1.raw);
            self.1.constant_kept(&c4, &typed, v1.raw);
            self.1.constant_kept(&typed, ctx, v1.raw);
            assert(node.members@[2] == v2.raw);
            self.2.constant_kept(&c2, &c3, v2.raw);
            self.2.constant_kept(&c3, &c4, v2.raw);
            self.2.constant_kept(&c4, &typed, v2.raw);
            self.2.constant_kept(&typed, ctx, v2.raw);
            assert(node.members@[3] == v3.raw);
            self.3.constant_kept(&c3, &c4, v3.raw);
            self.3.constant_kept(&c4, &typed, v3.raw);
            self.3.constant_kept(&typed, ctx, v3.raw);
            assert(node.members@[4] == v4.raw);
            self.4.constant_kept(&c4, &typed, v4.raw);
            self.4.constant_kept(&typed, ctx, v4.raw);
            Self::stands_for_kept(&typed, ctx, ty.raw);
        }
        Value { raw }
    }

    fn get_type(ctx: &mut Context) -> (ty: Type) {
        let t0 = A::get_type(ctx);
        let ghost c0 = *ctx;
        let t1 = B::get_type(ctx);
        let ghost c1 = *ctx;
        let t2 = C::get_type(ctx);
        let ghost c2 = *ctx;
        let t3 = D::get_type(ctx);
        let ghost c3 = *ctx;
        let t4 = E::get_type(ctx);
        let ghost c4 = *ctx;
        let mut fields: Vec<Type> = Vec::new();
        fields.push(t0);
        fields.push(t1);
        fields.push(t2);
        fields.push(t3);
        fields.push(t4);
        proof {
            A::stands_for_kept(&c0, &c1, t0.raw);
            A::stands_for_kept(&c1, &c2, t0.raw);
            A::stands_for_kept(&c2, &c3, t0.raw);
            A::stands_for_kept(&c3, &c4, t0.raw);
            assert(c4.type_known(t0.raw));
            B::stands_for_kept(&c1, &c2, t1.raw);
            B::stands_for_kept(&c2, &c3, t1.raw);
            B::stands_for_kept(&c3, &c4, t1.raw);
            assert(c4.type_known(t1.raw));
            C::stands_for_kept(&c2, &c3, t2.raw);
            C::stands_for_kept(&c3, &c4, t2.raw);
            assert(c4.type_known(t2.raw));
            D::stands_for_kept(&c3, &c4, t3.raw);
            assert(c4.type_known(t3.raw));
            assert(c4.type_known(t4.raw));
            assert forall|i: int| 0 <= i < fields@.len() implies ctx.type_known(
                #[trigger] fields@[i].raw,
            ) by {
                assert(fields@[0] == t0);
                assert(fields@[1] == t1);
                assert(fields@[2] == t2);
                assert(fields@[3] == t3);
                assert(fields@[4] == t4);
            }
        }
        let ty = StructType::new(ctx, fields.as_slice(), false);
        proof {
            let node = ctx.types[ty.raw as int]@;
            assert(node == StructType::shape(fields@, false));
            assert(node.members[0] == t0.raw);
            A::stands_for_kept(&c4, ctx, t0.raw);
            assert(node.members[1] == t1.raw);
            B::stands_for_kept(&c4, ctx, t1.raw);
            assert(node.members[2] == t2.raw);
            C::stands_for_kept(&c4, ctx, t2.raw);
            assert(node.members[3] == t3.raw);
            D::stands_for_kept(&c4, ctx, t3.raw);
            assert(node.members[4] == t4.raw);
            E::stands_for_kept(&c4, ctx, t4.raw);
        }
        Type { raw: ty.raw }
    }

    proof fn stands_for_kept(before: &Context, after: &Context, raw: usize) {
        let node = before.types[raw as int]@;
        assert(after.types[raw as int] == before.types[raw as int]);
        A::stands_for_kept(before, after, node.members[0]);
        B::stands_for_kept(before, after, node.members[1]);
        C::stands_for_kept(before, after, node.members[2]);
        D::stands_for_kept(before, after, node.members[3]);
        E::stands_for_kept(before, after, node.members[4]);
        lemma_first_shape_kept(before, after, node, raw);
    }

    proof fn stands_for_one(ctx: &Context, a: usize, b: usize) {
        let na = ctx.types[a as int]@;
        let nb = ctx.types[b as int]@;
        A::stands_for_one(ctx, na.members[0], nb.members[0]);
        B::stands_for_one(ctx, na.members[1], nb.members[1]);
        C::stands_for_one(ctx, na.members[2], nb.members[2]);
        D::stands_for_one(ctx, na.members[3], nb.members[3]);
        E::stands_for_one(ctx, na.members[4], nb.members[4]);
        assert(na.members =~= nb.members);
        assert(na == nb);
        lemma_first_shape_one(ctx, na, a, b);
    }

    proof fn constant_kept(self, before: &Context, after: &Context, raw: usize) {
        let node = before.values[raw as int];
        assert(after.values[raw as int] == before.values[raw as int]);
        Self::stands_for_kept(before, after, node.ty);
        self.0.constant_kept(before, after, node.members[0]);
        self.1.constant_kept(before, after, node.members[1]);
        self.2.constant_kept(before, after, node.members[2]);
        self.3.constant_kept(before, after, node.members[3]);
        self.4.constant_kept(before, after, node.members[4]);
        lemma_first_constant_kept(before, after, node.ty, 0, node.members@, raw);
    }

    proof fn constant_one(self, ctx: &Context, a: usize, b: usize) {
        let na = ctx.values[a as int];
        let nb = ctx.values[b as int];
        Self::stands_for_one(ctx, na.ty, nb.ty);
        self.0.constant_one(ctx, na.members[0], nb.members[0]);
        self.1.constant_one(ctx, na.members[1], nb.members[1]);
        self.2.constant_one(ctx, na.members[2], nb.members[2]);
        self.3.constant_one(ctx, na.members[3], nb.members[3]);
        self.4.constant_one(ctx, na.members[4], nb.members[4]);
        assert(na.members@ =~= nb.members@);
        lemma_first_constant_one(ctx, na.ty, 0, na.members@, a, b);
    }
}

/// A tuple of six is a struct of six fields, not packed.
impl<A: Compile, B: Compile, C: Compile, D: Compile, E: Compile, F: Compile> Compile for (A, B, C, D, E, F) {
    open spec fn stands_for(ctx: &Context, raw: usize) -> bool {
        let node = ctx.types[raw as int]@;
        &&& ctx.type_known(raw)
        &&& node.kind == TypeKind::Struct
        &&& node.element == 0
        &&& node.count == 0
        &&& !node.packed
        &&& node.name.is_none()
        &&& node.members.len() == 6
        &&& A::stands_for(ctx, node.members[0])
        &&& B::stands_for(ctx, node.members[1])
        &&& C::stands_for(ctx, node.members[2])
        &&& D::stands_for(ctx, node.members[3])
        &&& E::stands_for(ctx, node.members[4])
        &&& F::stands_for(ctx, node.members[5])
        &&& ctx.first_with_shape(node, raw)
    }

    open spec fn constant_of(self, ctx: &Context, raw: usize) -> bool {
        let node = ctx.values[raw as int];
        &&& ctx.value_known(raw)
        &&& Self::stands_for(ctx, node.ty)
        &&& node.members.len() == 6
        &&& self.0.constant_of(ctx, node.members[0])
        &&& self.1.constant_of(ctx, node.members[1])
        &&& self.2.constant_of(ctx, node.members[2])
        &&& self.3.constant_of(ctx, node.members[3])
        &&& self.4.constant_of(ctx, node.members[4])
        &&& self.5.constant_of(ctx, node.members[5])
        &&& ctx.first_constant(node.ty, 0, node.members@, raw)
    }

    fn compile(self, ctx: &mut Context) -> (v: Value) {
        let (a, b, c, d, e, f) = self;
        let v0 = a.compile(ctx);
        let ghost c0 = *ctx;
        let v1 = b.compile(ctx);
        let ghost c1 = *ctx;
        let v2 = c.compile(ctx);
        let ghost c2 = *ctx;
        let v3 = d.compile(ctx);
        let ghost c3 = *ctx;
        let v4 = e.compile(ctx);
        let ghost c4 = *ctx;
        let v5 = f.compile(ctx);
        let ghost c5 = *ctx;
        let ty = Self::get_type(ctx);
        let ghost typed = *ctx;
        let mut members: Vec<usize> = Vec::new();
        members.push(v0.raw);
        members.push(v1.raw);
        members.push(v2.raw);
        members.push(v3.raw);
        members.push(v4.raw);
        members.push(v5.raw);
        proof {
            assert(typed.value_known(v0.raw));
            assert(typed.value_known(v1.raw));
            assert(typed.value_known(v2.raw));
            assert(typed.value_known(v3.raw));
            assert(typed.value_known(v4.raw));
            assert(typed.value_known(v5.raw));
        }
        let raw = ctx.intern_constant(ty.raw, 0, members);
        proof {
            let node = ctx.values[raw as int];
            assert(node.members@[0] == v0.raw);
            self.0.constant_kept(&c0, &c1, v0.raw);
            self.0.constant_kept(&c1, &c2, v0.raw);
            self.0.constant_kept(&c2, &c3, v0.raw);
            self.0.constant_kept(&c3, &c4, v0.raw);
            self.0.constant_kept(&c4, &c5, v0.raw);
            self.0.constant_kept(&c5, &typed, v0.raw);
            self.0.constant_kept(&typed, ctx, v0.raw);
            assert(node.members@[1] == v1.raw);
            self.1.constant_kept(&c1, &c2, v1.raw);
            self.1.constant_kept(&c2, &c3, v1.raw);
            self.1.constant_kept(&c3, &c4, v1.raw);
            self.1.constant_kept(&c4, &c5, v1.raw);
            self.1.constant_kept(&c5, &typed, v1.raw);
            self.1.constant_kept(&typed, ctx, v1.raw);
            assert(node.members@[2] == v2.raw);
            self.2.constant_kept(&c2, &c3, v2.raw);
            self.2.constant_kept(&c3, &c4, v2.raw);
            self.2.constant_kept(&c4, &c5, v2.raw);
            self.2.constant_kept(&c5, &typed, v2.raw);
            self.2.constant_kept(&typed, ctx, v2.raw);
            assert(node.members@[3] == v3.raw);
            self.3.constant_kept(&c3, &c4, v3.raw);
            self.3.constant_kept(&c4, &c5, v3.raw);
            self.3.constant_kept(&c5, &typed, v3.raw);
            self.3.constant_kept(&typed, ctx, v3.raw);
            assert(node.members@[4] == v4.raw);
            self.4.constant_kept(&c4, &c5, v4.raw);
            self.4.constant_kept(&c5, &typed, v4.raw);
            self.4.constant_kept(&typed, ctx, v4.raw);
            assert(node.members@[5] == v5.raw);
            self.5.constant_kept(&c5, &typed, v5.raw);
            self.5.constant_kept(&typed, ctx, v5.raw);
            Self::stands_for_kept(&typed, ctx, ty.raw);
        }
        Value { raw }
    }

    fn get_type(ctx: &mut Context) -> (ty: Type) {
        let t0 = A::get_type(ctx);
        let ghost c0 = *ctx;
        let t1 = B::get_type(ctx);
        let ghost c1 = *ctx;
        let t2 = C::get_type(ctx);
        let ghost c2 = *ctx;
        let t3 = D::get_type(ctx);
        let ghost c3 = *ctx;
        let t4 = E::get_type(ctx);
        let ghost c4 = *ctx;
        let t5 = F::get_type(ctx);
        let ghost c5 = *ctx;
        let mut fields: Vec<Type> = Vec::new();
        fields.push(t0);
        fields.push(t1);
        fields.push(t2);
        fields.push(t3);
        fields.push(t4);
        fields.push(t5);
        proof {
            A::stands_for_kept(&c0, &c1, t0.raw);
            A::stands_for_kept(&c1, &c2, t0.raw);
            A::stands_for_kept(&c2, &c3, t0.raw);
            A::stands_for_kept(&c3, &c4, t0.raw);
            A::stands_for_kept(&c4, &c5, t0.raw);
            assert(c5.type_known(t0.raw));
            B::stands_for_kept(&c1, &c2, t1.raw);
            B::stands_for_kept(&c2, &c3, t1.raw);
            B::stands_for_kept(&c3, &c4, t1.raw);
            B::stands_for_kept(&c4, &c5, t1.raw);
            assert(c5.type_known(t1.raw));
            C::stands_for_kept(&c2, &c3, t2.raw);
            C::stands_for_kept(&c3, &c4, t2.raw);
            C::stands_for_kept(&c4, &c5, t2.raw);
            assert(c5.type_known(t2.raw));
            D::stands_for_kept(&c3, &c4, t3.raw);
            D::stands_for_kept(&c4, &c5, t3.raw);
            assert(c5.type_known(t3.raw));
            E::stands_for_kept(&c4, &c5, t4.raw);
            assert(c5.type_known(t4.raw));
            assert(c5.type_known(t5.raw));
            assert forall|i: int| 0 <= i < fields@.len() implies ctx.type_known(
                #[trigger] fields@[i].raw,
            ) by {
                assert(fields@[0] == t0);
                assert(fields@[1] == t1);
                assert(fields@[2] == t2);
                assert(fields@[3] == t3);
                assert(fields@[4] == t4);
                assert(fields@[5] == t5);
            }
        }
        let ty = StructType::new(ctx, fields.as_slice(), false);
        proof {
            let node = ctx.types[ty.raw as int]@;
            assert(node == StructType::shape(fields@, false));
            assert(node.members[0] == t0.raw);
            A::stands_for_kept(&c5, ctx, t0.raw);
            assert(node.members[1] == t1.raw);
            B::stands_for_kept(&c5, ctx, t1.raw);
            assert(node.members[2] == t2.raw);
            C::stands_for_kept(&c5, ctx, t2.raw);
            assert(node.members[3] == t3.raw);
            D::stands_for_kept(&c5, ctx, t3.raw);
            assert(node.members[4] == t4.raw);
            E::stands_for_kept(&c5, ctx, t4.raw);
            assert(node.members[5] == t5.raw);
            F::stands_for_kept(&c5, ctx, t5.raw);
        }
        Type { raw: ty.raw }
    }

    proof fn stands_for_kept(before: &Context, after: &Context, raw: usize) {
        let node = before.types[raw as int]@;
        assert(after.types[raw as int] == before.types[raw as int]);
        A::stands_for_kept(before, after, node.members[0]);
        B::stands_for_kept(before, after, node.members[1]);
        C::stands_for_kept(before, after, node.members[2]);
        D::stands_for_kept(before, after, node.members[3]);
        E::stands_for_kept(before, after, node.members[4]);
        F::stands_for_kept(before, after, node.members[5]);
        lemma_first_shape_kept(before, after, node, raw);
    }

    proof fn stands_for_one(ctx: &Context, a: usize, b: usize) {
        let na = ctx.types[a as int]@;
        let nb = ctx.types[b as int]@;
        A::stands_for_one(ctx, na.members[0], nb.members[0]);
        B::stands_for_one(ctx, na.members[1], nb.members[1]);
        C::stands_for_one(ctx, na.members[2], nb.members[2]);
        D::stands_for_one(ctx, na.members[3], nb.members[3]);
        E::stands_for_one(ctx, na.members[4], nb.members[4]);
        F::stands_for_one(ctx, na.members[5], nb.members[5]);
        assert(na.members =~= nb.members);
        assert(na == nb);
        lemma_first_shape_one(ctx, na, a, b);
    }

    proof fn constant_kept(self, before: &Context, after: &Context, raw: usize) {
        let node = before.values[raw as int];
        assert(after.values[raw as int] == before.values[raw as int]);
        Self::stands_for_kept(before, after, node.ty);
        self.0.constant_kept(before, after, node.members[0]);
        self.1.constant_kept(before, after, node.members[1]);
        self.2.constant_kept(before, after, node.members[2]);
        self.3.constant_kept(before, after, node.members[3]);
        self.4.constant_kept(before, after, node.members[4]);
        self.5.constant_kept(before, after, node.members[5]);
        lemma_first_constant_kept(before, after, node.ty, 0, node.members@, raw);
    }

    proof fn constant_one(self, ctx: &Context, a: usize, b: usize) {
        let na = ctx.values[a as int];
        let nb = ctx.values[b as int];
        Self::stands_for_one(ctx, na.ty, nb.ty);
        self.0.constant_one(ctx, na.members[0], nb.members[0]);
        self.1.constant_one(ctx, na.members[1], nb.members[1]);
        self.2.constant_one(ctx, na.members[2], nb.members[2]);
        self.3.constant_one(ctx, na.members[3], nb.members[3]);
        self.4.constant_one(ctx, na.members[4], nb.members[4]);
        self.5.constant_one(ctx, na.members[5], nb.members[5]);
        assert(na.members@ =~= nb.members@);
        lemma_first_constant_one(ctx, na.ty, 0, na.members@, a, b);
    }
}

/// A tuple of seven is a struct of seven fields, not packed.
impl<A: Compile, B: Compile, C: Compile, D: Compile, E: Compile, F: Compile, G: Compile> Compile for (A, B, C, D, E, F, G) {
    open spec fn stands_for(ctx: &Context, raw: usize) -> bool {
        let node = ctx.types[raw as int]@;
        &&& ctx.type_known(raw)
        &&& node.kind == TypeKind::Struct
        &&& node.element == 0
        &&& node.count == 0
        &&& !node.packed
        &&& node.name.is_none()
        &&& node.members.len() == 7
        &&& A::stands_for(ctx, node.members[0])
        &&& B::stands_for(ctx, node.members[1])
        &&& C::stands_for(ctx, node.members[2])
        &&& D::stands_for(ctx, node.members[3])
        &&& E::stands_for(ctx, node.members[4])
        &&& F::stands_for(ctx, node.members[5])
        &&& G::stands_for(ctx, node.members[6])
        &&& ctx.first_with_shape(node, raw)
    }

    open spec fn constant_of(self, ctx: &Context, raw: usize) -> bool {
        let node = ctx.values[raw as int];
        &&& ctx.value_known(raw)
        &&& Self::stands_for(ctx, node.ty)
        &&& node.members.len() == 7
        &&& self.0.constant_of(ctx, node.members[0])
        &&& self.1.constant_of(ctx, node.members[1])
        &&& self.2.constant_of(ctx, node.members[2])
        &&& self.3.constant_of(ctx, node.members[3])
        &&& self.4.constant_of(ctx, node.members[4])
        &&& self.5.constant_of(ctx, node.members[5])
        &&& self.6.constant_of(ctx, node.members[6])
        &&& ctx.first_constant(node.ty, 0, node.members@, raw)
    }

    fn compile(self, ctx: &mut Context) -> (v: Value) {
        let (a, b, c, d, e, f, g) = self;
        let v0 = a.compile(ctx);
        let ghost c0 = *ctx;
        let v1 = b.compile(ctx);
        let ghost c1 = *ctx;
        let v2 = c.compile(ctx);
        let ghost c2 = *ctx;
        let v3 = d.compile(ctx);
        let ghost c3 = *ctx;
        let v4 = e.compile(ctx);
        let ghost c4 = *ctx;
        let v5 = f.compile(ctx);
        let ghost c5 = *ctx;
        let v6 = g.compile(ctx);
        let ghost c6 = *ctx;
        let ty = Self::get_type(ctx);
        let ghost typed = *ctx;
        let mut members: Vec<usize> = Vec::new();
        members.push(v0.raw);
        members.push(v1.raw);
        members.push(v2.raw);
        members.push(v3.raw);
        members.push(v4.raw);
        members.push(v5.raw);
        members.push(v6.raw);
        proof {
            assert(typed.value_known(v0.raw));
            assert(typed.value_known(v1.raw));
            assert(typed.value_known(v2.raw));
            assert(typed.value_known(v3.raw));
            assert(typed.value_known(v4.raw));
            assert(typed.value_known(v5.raw));
            assert(typed.value_known(v6.raw));
        }
        let raw = ctx.intern_constant(ty.raw, 0, members);
        proof {
            let node = ctx.values[raw as int];
            assert(node.members@[0] == v0.raw);
            self.0.constant_kept(&c0, &c1, v0.raw);
            self.0.constant_kept(&c1, &c2, v0.raw);
            self.0.constant_kept(&c2, &c3, v0.raw);
            self.0.constant_kept(&c3, &c4, v0.raw);
            self.0.constant_kept(&c4, &c5, v0.raw);
            self.0.constant_kept(&c5, &c6, v0.raw);
            self.0.constant_kept(&c6, &typed, v0.raw);
            self.0.constant_kept(&typed, ctx, v0.raw);
            assert(node.members@[1] == v1.raw);
            self.1.constant_kept(&c1, &c2, v1.raw);
            self.1.constant_kept(&c2, &c3, v1.raw);
            self.1.constant_kept(&c3, &c4, v1.raw);
            self.1.constant_kept(&c4, &c5, v1.raw);
            self.1.constant_kept(&c5, &c6, v1.raw);
            self.1.constant_kept(&c6, &typed, v1.raw);
            self.1.constant_kept(&typed, ctx, v1.raw);
            assert(node.members@[2] == v2.raw);
            self.2.constant_kept(&c2, &c3, v2.raw);
            self.2.constant_kept(&c3, &c4, v2.raw);
            self.2.constant_kept(&c4, &c5, v2.raw);
            self.2.constant_kept(&c5, &c6, v2.raw);
            self.2.constant_kept(&c6, &typed, v2.raw);
            self.2.constant_kept(&typed, ctx, v2.raw);
            assert(node.members@[3] == v3.raw);
            self.3.constant_kept(&c3, &c4, v3.raw);
            self.3.constant_kept(&c4, &c5, v3.raw);
            self.3.constant_kept(&c5, &c6, v3.raw);
            self.3.constant_kept(&c6, &typed, v3.raw);
            self.3.constant_kept(&typed, ctx, v3.raw);
            assert(node.members@[4] == v4.raw);
            self.4.constant_kept(&c4, &c5, v4.raw);
            self.4.constant_kept(&c5, &c6, v4.raw);
            self.4.constant_kept(&c6, &typed, v4.raw);
            self.4.constant_kept(&typed, ctx, v4.raw);
            assert(node.members@[5] == v5.raw);
            self.5.constant_kept(&c5, &c6, v5.raw);
            self.5.constant_kept(&c6, &typed, v5.raw);
            self.5.constant_kept(&typed, ctx, v5.raw);
            assert(node.members@[6] == v6.raw);
            self.6.constant_kept(&c6, &typed, v6.raw);
            self.6.constant_kept(&typed, ctx, v6.raw);
            Self::stands_for_kept(&typed, ctx, ty.raw);
        }
        Value { raw }
    }

    fn get_type(ctx: &mut Context) -> (ty: Type) {
        let t0 = A::get_type(ctx);
        let ghost c0 = *ctx;
        let t1 = B::get_type(ctx);
        let ghost c1 = *ctx;
        let t2 = C::get_type(ctx);
        let ghost c2 = *ctx;
        let t3 = D::get_type(ctx);
        let ghost c3 = *ctx;
        let t4 = E::get_type(ctx);
        let ghost c4 = *ctx;
        let t5 = F::get_type(ctx);
        let ghost c5 = *ctx;
        let t6 = G::get_type(ctx);
        let ghost c6 = *ctx;
        let mut fields: Vec<Type> = Vec::new();
        fields.push(t0);
        fields.push(t1);
        fields.push(t2);
        fields.push(t3);
        fields.push(t4);
        fields.push(t5);
        fields.push(t6);
        proof {
            A::stands_for_kept(&c0, &c1, t0.raw);
            A::stands_for_kept(&c1, &c2, t0.raw);
            A::stands_for_kept(&c2, &c3, t0.raw);
            A::stands_for_kept(&c3, &c4, t0.raw);
            A::stands_for_kept(&c4, &c5, t0.raw);
            A::stands_for_kept(&c5, &c6, t0.raw);
            assert(c6.type_known(t0.raw));
            B::stands_for_kept(&c1, &c2, t1.raw);
            B::stands_for_kept(&c2, &c3, t1.raw);
            B::stands_for_kept(&c3, &c4, t1.raw);
            B::stands_for_kept(&c4, &c5, t1.raw);
            B::stands_for_kept(&c5, &c6, t1.raw);
            assert(c6.type_known(t1.raw));
            C::stands_for_kept(&c2, &c3, t2.raw);
            C::stands_for_kept(&c3, &c4, t2.raw);
            C::stands_for_kept(&c4, &c5, t2.raw);
            C::stands_for_kept(&c5, &c6, t2.raw);
            assert(c6.type_known(t2.raw));
            D::stands_for_kept(&c3, &c4, t3.raw);
            D::stands_for_kept(&c4, &c5, t3.raw);
            D::stands_for_kept(&c5, &c6, t3.raw);
            assert(c6.type_known(t3.raw));
            E::stands_for_kept(&c4, &c5, t4.raw);
            E::stands_for_kept(&c5, &c6, t4.raw);
            assert(c6.type_known(t4.raw));
            F::stands_for_kept(&c5, &c6, t5.raw);
            assert(c6.type_known(t5.raw));
            assert(c6.type_known(t6.raw));
            assert forall|i: int| 0 <= i < fields@.len() implies ctx.type_known(
                #[trigger] fields@[i].raw,
            ) by {
                assert(fields@[0] == t0);
                assert(fields@[1] == t1);
                assert(fields@[2] == t2);
                assert(fields@[3] == t3);
                assert(fields@[4] == t4);
                assert(fields@[5] == t5);
                assert(fields@[6] == t6);
            }
        }
        let ty = StructType::new(ctx, fields.as_slice(), false);
        proof {
            let node = ctx.types[ty.raw as int]@;
            assert(node == StructType::shape(fields@, false));
            assert(node.members[0] == t0.raw);
            A::stands_for_kept(&c6, ctx, t0.raw);
            assert(node.members[1] == t1.raw);
            B::stands_for_kept(&c6, ctx, t1.raw);
            assert(node.members[2] == t2.raw);
            C::stands_for_kept(&c6, ctx, t2.raw);
            assert(node.members[3] == t3.raw);
            D::stands_for_kept(&c6, ctx, t3.raw);
            assert(node.members[4] == t4.raw);
            E::stands_for_kept(&c6, ctx, t4.raw);
            assert(node.members[5] == t5.raw);
            F::stands_for_kept(&c6, ctx, t5.raw);
            assert(node.members[6] == t6.raw);
            G::stands_for_kept(&c6, ctx, t6.raw);
        }
        Type { raw: ty.raw }
    }

    proof fn stands_for_kept(before: &Context, after: &Context, raw: usize) {
        let node = before.types[raw as int]@;
        assert(after.types[raw as int] == before.types[raw as int]);
        A::stands_for_kept(before, after, node.members[0]);
        B::stands_for_kept(before, after, node.members[1]);
        C::stands_for_kept(before, after, node.members[2]);
        D::stands_for_kept(before, after, node.members[3]);
        E::stands_for_kept(before, after, node.members[4]);
        F::stands_for_kept(before, after, node.members[5]);
        G::stands_for_kept(before, after, node.members[6]);
        lemma_first_shape_kept(before, after, node, raw);
    }

    proof fn stands_for_one(ctx: &Context, a: usize, b: usize) {
        let na = ctx.types[a as int]@;
        let nb = ctx.types[b as int]@;
        A::stands_for_one(ctx, na.members[0], nb.members[0]);
        B::stands_for_one(ctx, na.members[1], nb.members[1]);
        C::stands_for_one(ctx, na.members[2], nb.members[2]);
        D::stands_for_one(ctx, na.members[3], nb.members[3]);
        E::stands_for_one(ctx, na.members[4], nb.members[4]);
        F::stands_for_one(ctx, na.members[5], nb.members[5]);
        G::stands_for_one(ctx, na.members[6], nb.members[6]);
        assert(na.members =~= nb.members);
        assert(na == nb);
        lemma_first_shape_one(ctx, na, a, b);
    }

    proof fn constant_kept(self, before: &Context, after: &Context, raw: usize) {
        let node = before.values[raw as int];
        assert(after.values[raw as int] == before.values[raw as int]);
        Self::stands_for_kept(before, after, node.ty);
        self.0.constant_kept(before, after, node.members[0]);
        self.1.constant_kept(before, after, node.members[1]);
        self.2.constant_kept(before, after, node.members[2]);
        self.3.constant_kept(before, after, node.members[3]);
        self.4.constant_kept(before, after, node.members[4]);
        self.5.constant_kept(before, after, node.members[5]);
        self.6.constant_kept(before, after, node.members[6]);
        lemma_first_constant_kept(before, after, node.ty, 0, node.members@, raw);
    }

    proof fn constant_one(self, ctx: &Context, a: usize, b: usize) {
        let na = ctx.values[a as int];
        let nb = ctx.values[b as int];
        Self::stands_for_one(ctx, na.ty, nb.ty);
        self.0.constant_one(ctx, na.members[0], nb.members[0]);
        self.1.constant_one(ctx, na.members[1], nb.members[1]);
        self.2.constant_one(ctx, na.members[2], nb.members[2]);
        self.3.constant_one(ctx, na.members[3], nb.members[3]);
        self.4.constant_one(ctx, na.members[4], nb.members[4]);
        self.5.constant_one(ctx, na.members[5], nb.members[5]);
        self.6.constant_one(ctx, na.members[6], nb.members[6]);
        assert(na.members@ =~= nb.members@);
        lemma_first_constant_one(ctx, na.ty, 0, na.members@, a, b);
    }
}

} // verus!
