//! Types: how a value is laid out in memory.

use vstd::prelude::*;
use vstd::string::StringSliceAdditionalSpecFns;
use crate::compile::Compile;
use crate::context::{interned, Context, GetContext, TypeKind, TypeNode, TypeShape};
use crate::util::{NativeRef, Sub};

verus! {

/// Defines how a value should be laid out in memory.
#[derive(Clone, Copy, Debug, PartialEq, Eq, Structural)]
pub struct Type {
    /// The raw handle.
    pub raw: usize,
}

impl NativeRef for Type {
    open spec fn raw_spec(&self) -> usize {
        self.raw
    }

    open spec fn project(raw: usize) -> Self {
        Type { raw }
    }

    fn from_raw(raw: usize) -> (r: Self) {
        Type { raw }
    }

    fn as_raw(&self) -> (raw: usize) {
        self.raw
    }

    proof fn raw_round_trip(raw: usize) {
    }

    proof fn ref_round_trip(r: Self) {
    }
}

/// The shape of an unnamed type that holds no other type.
pub open spec fn scalar_shape(kind: TypeKind, count: usize) -> TypeShape {
    TypeShape { kind, element: 0, members: Seq::empty(), count, packed: false, name: None }
}

/// The shape of an unnamed type with one element type.
pub open spec fn element_shape(kind: TypeKind, element: usize, count: usize) -> TypeShape {
    TypeShape { kind, element, members: Seq::empty(), count, packed: false, name: None }
}

/// The raw handles of a list of types.
pub open spec fn raws_of(tys: Seq<Type>) -> Seq<usize> {
    Seq::new(tys.len(), |i: int| tys[i].raw)
}

/// The types that a list of raw handles stands for.
pub open spec fn types_of(raws: Seq<usize>) -> Seq<Type> {
    Seq::new(raws.len(), |i: int| Type { raw: raws[i] })
}

/// Whether every type of the list is known to `ctx`.
pub open spec fn all_known(ctx: &Context, tys: Seq<Type>) -> bool {
    forall|i: int| 0 <= i < tys.len() ==> ctx.type_known(#[trigger] tys[i].raw)
}

/// The type at the end of the chain of pointers that starts at `raw`: the
/// first type on it that is no pointer.
pub open spec fn pointee_root(ctx: &Context, raw: usize) -> usize
    decreases raw,
{
    if ctx.type_known(raw) && ctx.types[raw as int].kind == TypeKind::Pointer
        && ctx.types[raw as int].element < raw {
        pointee_root(ctx, ctx.types[raw as int].element)
    } else {
        raw
    }
}

/// Types are unique by shape: asking for the same shape again gives the same
/// handle and leaves the arena as it is.
pub proof fn lemma_interned_again(
    c0: &Context,
    c1: &Context,
    c2: &Context,
    shape: TypeShape,
    r1: usize,
    r2: usize,
)
    requires
        interned(c0, c1, shape, r1),
        interned(c1, c2, shape, r2),
    ensures
        r1 == r2,
        *c2 == *c1,
{
    if !c1.type_known(r2) {
        assert(c2.types[r1 as int] == c1.types[r1 as int]);
    }
}

/// Copies the raw handles out of a list of types.
pub fn raw_handles(tys: &[Type]) -> (raws: Vec<usize>)
    ensures
        raws@ == raws_of(tys@),
{
    let mut raws: Vec<usize> = Vec::new();
    let mut i: usize = 0;
    while i < tys.len()
        invariant
            i <= tys.len(),
            raws@ == raws_of(tys@.subrange(0, i as int)),
        decreases tys.len() - i,
    {
        raws.push(tys[i].raw);
        i += 1;
        assert(raws@ =~= raws_of(tys@.subrange(0, i as int)));
    }
    assert(tys@.subrange(0, i as int) =~= tys@);
    raws
}

/// Projects each raw handle of a list to a type.
pub fn type_refs(raws: &Vec<usize>) -> (tys: Vec<Type>)
    ensures
        tys@ == types_of(raws@),
{
    let mut tys: Vec<Type> = Vec::new();
    let mut i: usize = 0;
    while i < raws.len()
        invariant
            i <= raws.len(),
            tys@ == types_of(raws@.subrange(0, i as int)),
        decreases raws.len() - i,
    {
        tys.push(Type { raw: raws[i] });
        i += 1;
        assert(tys@ =~= types_of(raws@.subrange(0, i as int)));
    }
    assert(raws@.subrange(0, i as int) =~= raws@);
    tys
}

impl Type {
    /// Whether this handle names a type of `ctx`.
    pub open spec fn valid(&self, ctx: &Context) -> bool {
        ctx.type_known(self.raw)
    }

    /// The kind tag of this type.
    pub open spec fn kind_spec(&self, ctx: &Context) -> TypeKind {
        ctx.types[self.raw as int].kind
    }

    /// Gets the type that stands for `T` in the context given.
    pub fn get<T: Compile>(ctx: &mut Context) -> (ty: Type)
        requires
            old(ctx).wf(),
        ensures
            final(ctx).wf(),
            final(ctx).values == old(ctx).values,
            old(ctx).types_kept_by(final(ctx)),
            ty.valid(final(ctx)),
            T::stands_for(final(ctx), ty.raw),
    {
        T::get_type(ctx)
    }

    /// Returns the kind tag of this type.
    pub fn kind(&self, ctx: &Context) -> (k: TypeKind)
        requires
            self.valid(ctx),
        ensures
            k == self.kind_spec(ctx),
    {
        ctx.types[self.raw].kind
    }

    /// Returns true if this type is a function.
    pub fn is_function(&self, ctx: &Context) -> (b: bool)
        requires
            self.valid(ctx),
        ensures
            b == (self.kind_spec(ctx) == TypeKind::Function),
    {
        ctx.types[self.raw].kind == TypeKind::Function
    }

    /// Returns true if this type is a struct.
    pub fn is_struct(&self, ctx: &Context) -> (b: bool)
        requires
            self.valid(ctx),
        ensures
            b == (self.kind_spec(ctx) == TypeKind::Struct),
    {
        ctx.types[self.raw].kind == TypeKind::Struct
    }

    /// Returns true if this type is void.
    pub fn is_void(&self, ctx: &Context) -> (b: bool)
        requires
            self.valid(ctx),
        ensures
            b == (self.kind_spec(ctx) == TypeKind::Void),
    {
        ctx.types[self.raw].kind == TypeKind::Void
    }

    /// Returns true if this type is a pointer.
    pub fn is_pointer(&self, ctx: &Context) -> (b: bool)
        requires
            self.valid(ctx),
        ensures
            b == (self.kind_spec(ctx) == TypeKind::Pointer),
    {
        ctx.types[self.raw].kind == TypeKind::Pointer
    }

    /// Returns true if this type is an integer.
    pub fn is_integer(&self, ctx: &Context) -> (b: bool)
        requires
            self.valid(ctx),
        ensures
            b == (self.kind_spec(ctx) == TypeKind::Integer),
    {
        ctx.types[self.raw].kind == TypeKind::Integer
    }

    /// Returns true if this type is any floating-point number.
    pub fn is_float(&self, ctx: &Context) -> (b: bool)
        requires
            self.valid(ctx),
        ensures
            b == (self.kind_spec(ctx) == TypeKind::Half || self.kind_spec(ctx) == TypeKind::Float
                || self.kind_spec(ctx) == TypeKind::Double),
    {
        let kind = ctx.types[self.raw].kind;
        kind == TypeKind::Half || kind == TypeKind::Float || kind == TypeKind::Double
    }

    /// Returns the element type of this type, or `None` if it has none.
    pub fn get_element(&self, ctx: &Context) -> (e: Option<Type>)
        requires
            ctx.wf(),
            self.valid(ctx),
        ensures
            e == (if ctx.types[self.raw as int].element == 0 {
                None
            } else {
                Some(Type { raw: ctx.types[self.raw as int].element })
            }),
            e.is_some() ==> e.unwrap().valid(ctx),
    {
        proof {
            assert(Context::type_node_ok(ctx.types[self.raw as int]@, self.raw as int));
        }
        crate::util::ptr_to_null::<Type>(ctx.types[self.raw].element)
    }
}

/// A structure type, such as a tuple or struct.
#[derive(Clone, Copy, Debug, PartialEq, Eq, Structural)]
pub struct StructType {
    /// The raw handle.
    pub raw: usize,
}

impl NativeRef for StructType {
    open spec fn raw_spec(&self) -> usize {
        self.raw
    }

    open spec fn project(raw: usize) -> Self {
        StructType { raw }
    }

    fn from_raw(raw: usize) -> (r: Self) {
        StructType { raw }
    }

    fn as_raw(&self) -> (raw: usize) {
        self.raw
    }

    proof fn raw_round_trip(raw: usize) {
    }

    proof fn ref_round_trip(r: Self) {
    }
}

impl Sub<Type> for StructType {
    open spec fn known(ctx: &Context, c: &Type) -> bool {
        ctx.type_known(c.raw)
    }

    open spec fn is_spec(ctx: &Context, c: &Type) -> bool {
        ctx.types[c.raw as int].kind == TypeKind::Struct
    }

    open spec fn narrow(c: &Type) -> Self {
        StructType { raw: c.raw }
    }

    open spec fn widen(&self) -> Type {
        Type { raw: self.raw }
    }

    fn is(ctx: &Context, c: &Type) -> (b: bool) {
        ctx.types[c.raw].kind == TypeKind::Struct
    }

    fn from_super(ctx: &Context, c: &Type) -> (r: Option<Self>) {
        if Self::is(ctx, c) {
            Some(StructType { raw: c.raw })
        } else {
            None
        }
    }

    fn to_super(&self) -> (r: Type) {
        Type { raw: self.raw }
    }

    proof fn widen_narrow(c: &Type) {
    }

    proof fn narrow_widen(s: &Self) {
    }
}

impl StructType {
    /// Whether this handle names a type of `ctx` of this kind.
    pub open spec fn valid(&self, ctx: &Context) -> bool {
        ctx.type_known(self.raw) && ctx.types[self.raw as int].kind == TypeKind::Struct
    }

    /// The shape of the unnamed struct with these fields.
    pub open spec fn shape(fields: Seq<Type>, packed: bool) -> TypeShape {
        TypeShape {
            kind: TypeKind::Struct,
            element: 0,
            members: raws_of(fields),
            count: 0,
            packed,
            name: None,
        }
    }

    /// The shape of the struct with this name and these fields.
    pub open spec fn named_shape(name: Seq<u8>, fields: Seq<Type>, packed: bool) -> TypeShape {
        TypeShape {
            kind: TypeKind::Struct,
            element: 0,
            members: raws_of(fields),
            count: 0,
            packed,
            name: Some(name),
        }
    }

    /// Makes a new struct with the given fields and packed representation.
    pub fn new(ctx: &mut Context, fields: &[Type], packed: bool) -> (ty: StructType)
        requires
            old(ctx).wf(),
            all_known(old(ctx), fields@),
        ensures
            interned(old(ctx), final(ctx), Self::shape(fields@, packed), ty.raw),
            ty.valid(final(ctx)),
    {
        let members = raw_handles(fields);
        let node = TypeNode {
            kind: TypeKind::Struct,
            element: 0,
            members,
            count: 0,
            packed,
            name: None,
        };
        assert(node@ == Self::shape(fields@, packed));
        let raw = ctx.intern(node);
        StructType { raw }
    }

    /// Makes a new named struct with the given fields and packed
    /// representation. A named struct is a type of its own: it is never shared
    /// with another of the same shape.
    pub fn new_named(ctx: &mut Context, name: &str, fields: &[Type], packed: bool) -> (ty:
        StructType)
        requires
            old(ctx).wf(),
            all_known(old(ctx), fields@),
            crate::util::nul_free(name.spec_bytes()),
        ensures
            final(ctx).wf(),
            final(ctx).values == old(ctx).values,
            old(ctx).types_kept_by(final(ctx)),
            ty.raw == old(ctx).types.len(),
            final(ctx).types.len() == ty.raw + 1,
            final(ctx).types[ty.raw as int]@ == Self::named_shape(
                name.spec_bytes(),
                fields@,
                packed,
            ),
            ty.valid(final(ctx)),
    {
        let members = raw_handles(fields);
        let node = TypeNode {
            kind: TypeKind::Struct,
            element: 0,
            members,
            count: 0,
            packed,
            name: Some(crate::util::to_bytes(name)),
        };
        assert(node@ == Self::named_shape(name.spec_bytes(), fields@, packed));
        let raw = ctx.push_type(node);
        StructType { raw }
    }

    /// Returns the elements that make up this struct.
    pub fn get_elements(&self, ctx: &Context) -> (els: Vec<Type>)
        requires
            ctx.wf(),
            self.valid(ctx),
        ensures
            els@ == types_of(ctx.types[self.raw as int].members@),
            all_known(ctx, els@),
    {
        let els = type_refs(&ctx.types[self.raw].members);
        proof {
            let shape = ctx.types[self.raw as int]@;
            assert(Context::type_node_ok(shape, self.raw as int));
            assert forall|i: int| 0 <= i < els@.len() implies ctx.type_known(
                #[trigger] els@[i].raw,
            ) by {
                assert(shape.members[i] == els@[i].raw);
            }
        }
        els
    }
}

/// A pointer type.
#[derive(Clone, Copy, Debug, PartialEq, Eq, Structural)]
pub struct PointerType {
    /// The raw handle.
    pub raw: usize,
}

impl NativeRef for PointerType {
    open spec fn raw_spec(&self) -> usize {
        self.raw
    }

    open spec fn project(raw: usize) -> Self {
        PointerType { raw }
    }

    fn from_raw(raw: usize) -> (r: Self) {
        PointerType { raw }
    }

    fn as_raw(&self) -> (raw: usize) {
        self.raw
    }

    proof fn raw_round_trip(raw: usize) {
    }

    proof fn ref_round_trip(r: Self) {
    }
}

impl Sub<Type> for PointerType {
    open spec fn known(ctx: &Context, c: &Type) -> bool {
        ctx.type_known(c.raw)
    }

    open spec fn is_spec(ctx: &Context, c: &Type) -> bool {
        ctx.types[c.raw as int].kind == TypeKind::Pointer
    }

    open spec fn narrow(c: &Type) -> Self {
        PointerType { raw: c.raw }
    }

    open spec fn widen(&self) -> Type {
        Type { raw: self.raw }
    }

    fn is(ctx: &Context, c: &Type) -> (b: bool) {
        ctx.types[c.raw].kind == TypeKind::Pointer
    }

    fn from_super(ctx: &Context, c: &Type) -> (r: Option<Self>) {
        if Self::is(ctx, c) {
            Some(PointerType { raw: c.raw })
        } else {
            None
        }
    }

    fn to_super(&self) -> (r: Type) {
        Type { raw: self.raw }
    }

    proof fn widen_narrow(c: &Type) {
    }

    proof fn narrow_widen(s: &Self) {
    }
}

impl PointerType {
    /// Whether this handle names a type of `ctx` of this kind.
    pub open spec fn valid(&self, ctx: &Context) -> bool {
        ctx.type_known(self.raw) && ctx.types[self.raw as int].kind == TypeKind::Pointer
    }

    /// Makes a new pointer type with the given element type.
    pub fn new(ctx: &mut Context, element: &Type) -> (ty: Type)
        requires
            old(ctx).wf(),
            element.valid(old(ctx)),
        ensures
            interned(
                old(ctx),
                final(ctx),
                element_shape(TypeKind::Pointer, element.raw, 0),
                ty.raw,
            ),
            ty.valid(final(ctx)),
            ty.kind_spec(final(ctx)) == TypeKind::Pointer,
    {
        let node = TypeNode {
            kind: TypeKind::Pointer,
            element: element.raw,
            members: Vec::new(),
            count: 0,
            packed: false,
            name: None,
        };
        assert(node@ == element_shape(TypeKind::Pointer, element.raw, 0));
        let raw = ctx.intern(node);
        Type { raw }
    }

    /// Returns the element type of this type.
    pub fn get_element(&self, ctx: &Context) -> (e: Type)
        requires
            ctx.wf(),
            self.valid(ctx),
        ensures
            e.raw == ctx.types[self.raw as int].element,
            e.valid(ctx),
    {
        proof {
            assert(Context::type_node_ok(ctx.types[self.raw as int]@, self.raw as int));
        }
        Type { raw: ctx.types[self.raw].element }
    }
}

/// An integer type.
#[derive(Clone, Copy, Debug, PartialEq, Eq, Structural)]
pub struct IntegerType {
    /// The raw handle.
    pub raw: usize,
}

impl NativeRef for IntegerType {
    open spec fn raw_spec(&self) -> usize {
        self.raw
    }

    open spec fn project(raw: usize) -> Self {
        IntegerType { raw }
    }

    fn from_raw(raw: usize) -> (r: Self) {
        IntegerType { raw }
    }

    fn as_raw(&self) -> (raw: usize) {
        self.raw
    }

    proof fn raw_round_trip(raw: usize) {
    }

    proof fn ref_round_trip(r: Self) {
    }
}

impl Sub<Type> for IntegerType {
    open spec fn known(ctx: &Context, c: &Type) -> bool {
        ctx.type_known(c.raw)
    }

    open spec fn is_spec(ctx: &Context, c: &Type) -> bool {
        ctx.types[c.raw as int].kind == TypeKind::Integer
    }

    open spec fn narrow(c: &Type) -> Self {
        IntegerType { raw: c.raw }
    }

    open spec fn widen(&self) -> Type {
        Type { raw: self.raw }
    }

    fn is(ctx: &Context, c: &Type) -> (b: bool) {
        ctx.types[c.raw].kind == TypeKind::Integer
    }

    fn from_super(ctx: &Context, c: &Type) -> (r: Option<Self>) {
        if Self::is(ctx, c) {
            Some(IntegerType { raw: c.raw })
        } else {
            None
        }
    }

    fn to_super(&self) -> (r: Type) {
        Type { raw: self.raw }
    }

    proof fn widen_narrow(c: &Type) {
    }

    proof fn narrow_widen(s: &Self) {
    }
}

impl IntegerType {
    /// Whether this handle names a type of `ctx` of this kind.
    pub open spec fn valid(&self, ctx: &Context) -> bool {
        ctx.type_known(self.raw) && ctx.types[self.raw as int].kind == TypeKind::Integer
    }

    /// Makes a new integer type that is the given number of bits wide.
    pub fn new(ctx: &mut Context, numbits: usize) -> (ty: IntegerType)
        requires
            old(ctx).wf(),
        ensures
            interned(old(ctx), final(ctx), scalar_shape(TypeKind::Integer, numbits), ty.raw),
            ty.valid(final(ctx)),
    {
        let node = TypeNode {
            kind: TypeKind::Integer,
            element: 0,
            members: Vec::new(),
            count: numbits,
            packed: false,
            name: None,
        };
        assert(node@ == scalar_shape(TypeKind::Integer, numbits));
        let raw = ctx.intern(node);
        IntegerType { raw }
    }

    /// Returns how long an integer of this type is, in bits.
    pub fn get_width(&self, ctx: &Context) -> (n: usize)
        requires
            self.valid(ctx),
        ensures
            n == ctx.types[self.raw as int].count,
    {
        ctx.types[self.raw].count
    }
}

/// A vector type.
#[derive(Clone, Copy, Debug, PartialEq, Eq, Structural)]
pub struct VectorType {
    /// The raw handle.
    pub raw: usize,
}

impl NativeRef for VectorType {
    open spec fn raw_spec(&self) -> usize {
        self.raw
    }

    open spec fn project(raw: usize) -> Self {
        VectorType { raw }
    }

    fn from_raw(raw: usize) -> (r: Self) {
        VectorType { raw }
    }

    fn as_raw(&self) -> (raw: usize) {
        self.raw
    }

    proof fn raw_round_trip(raw: usize) {
    }

    proof fn ref_round_trip(r: Self) {
    }
}

impl Sub<Type> for VectorType {
    open spec fn known(ctx: &Context, c: &Type) -> bool {
        ctx.type_known(c.raw)
    }

    open spec fn is_spec(ctx: &Context, c: &Type) -> bool {
        ctx.types[c.raw as int].kind == TypeKind::Vector
    }

    open spec fn narrow(c: &Type) -> Self {
        VectorType { raw: c.raw }
    }

    open spec fn widen(&self) -> Type {
        Type { raw: self.raw }
    }

    fn is(ctx: &Context, c: &Type) -> (b: bool) {
        ctx.types[c.raw].kind == TypeKind::Vector
    }

    fn from_super(ctx: &Context, c: &Type) -> (r: Option<Self>) {
        if Self::is(ctx, c) {
            Some(VectorType { raw: c.raw })
        } else {
            None
        }
    }

    fn to_super(&self) -> (r: Type) {
        Type { raw: self.raw }
    }

    proof fn widen_narrow(c: &Type) {
    }

    proof fn narrow_widen(s: &Self) {
    }
}

impl VectorType {
    /// Whether this handle names a type of `ctx` of this kind.
    pub open spec fn valid(&self, ctx: &Context) -> bool {
        ctx.type_known(self.raw) && ctx.types[self.raw as int].kind == TypeKind::Vector
    }

    /// Makes a new vector type with the length given.
    pub fn new(ctx: &mut Context, element: &Type, length: usize) -> (ty: VectorType)
        requires
            old(ctx).wf(),
            element.valid(old(ctx)),
        ensures
            interned(
                old(ctx),
                final(ctx),
                element_shape(TypeKind::Vector, element.raw, length),
                ty.raw,
            ),
            ty.valid(final(ctx)),
    {
        let node = TypeNode {
            kind: TypeKind::Vector,
            element: element.raw,
            members: Vec::new(),
            count: length,
            packed: false,
            name: None,
        };
        assert(node@ == element_shape(TypeKind::Vector, element.raw, length));
        let raw = ctx.intern(node);
        VectorType { raw }
    }

    /// Returns the element type of this type.
    pub fn get_element(&self, ctx: &Context) -> (e: Type)
        requires
            ctx.wf(),
            self.valid(ctx),
        ensures
            e.raw == ctx.types[self.raw as int].element,
            e.valid(ctx),
    {
        proof {
            assert(Context::type_node_ok(ctx.types[self.raw as int]@, self.raw as int));
        }
        Type { raw: ctx.types[self.raw].element }
    }

    /// Returns the number of elements in this vector type.
    pub fn get_size(&self, ctx: &Context) -> (n: usize)
        requires
            self.valid(ctx),
        ensures
            n == ctx.types[self.raw as int].count,
    {
        ctx.types[self.raw].count
    }
}

/// An array type.
#[derive(Clone, Copy, Debug, PartialEq, Eq, Structural)]
pub struct ArrayType {
    /// The raw handle.
    pub raw: usize,
}

impl NativeRef for ArrayType {
    open spec fn raw_spec(&self) -> usize {
        self.raw
    }

    open spec fn project(raw: usize) -> Self {
        ArrayType { raw }
    }

    fn from_raw(raw: usize) -> (r: Self) {
        ArrayType { raw }
    }

    fn as_raw(&self) -> (raw: usize) {
        self.raw
    }

    proof fn raw_round_trip(raw: usize) {
    }

    proof fn ref_round_trip(r: Self) {
    }
}

impl Sub<Type> for ArrayType {
    open spec fn known(ctx: &Context, c: &Type) -> bool {
        ctx.type_known(c.raw)
    }

    open spec fn is_spec(ctx: &Context, c: &Type) -> bool {
        ctx.types[c.raw as int].kind == TypeKind::Array
    }

    open spec fn narrow(c: &Type) -> Self {
        ArrayType { raw: c.raw }
    }

    open spec fn widen(&self) -> Type {
        Type { raw: self.raw }
    }

    fn is(ctx: &Context, c: &Type) -> (b: bool) {
        ctx.types[c.raw].kind == TypeKind::Array
    }

    fn from_super(ctx: &Context, c: &Type) -> (r: Option<Self>) {
        if Self::is(ctx, c) {
            Some(ArrayType { raw: c.raw })
        } else {
            None
        }
    }

    fn to_super(&self) -> (r: Type) {
        Type { raw: self.raw }
    }

    proof fn widen_narrow(c: &Type) {
    }

    proof fn narrow_widen(s: &Self) {
    }
}

impl ArrayType {
    /// Whether this handle names a type of `ctx` of this kind.
    pub open spec fn valid(&self, ctx: &Context) -> bool {
        ctx.type_known(self.raw) && ctx.types[self.raw as int].kind == TypeKind::Array
    }

    /// Makes a new array type with the length given.
    pub fn new(ctx: &mut Context, element: &Type, length: usize) -> (ty: ArrayType)
        requires
            old(ctx).wf(),
            element.valid(old(ctx)),
        ensures
            interned(
                old(ctx),
                final(ctx),
                element_shape(TypeKind::Array, element.raw, length),
                ty.raw,
            ),
            ty.valid(final(ctx)),
    {
        let node = TypeNode {
            kind: TypeKind::Array,
            element: element.raw,
            members: Vec::new(),
            count: length,
            packed: false,
            name: None,
        };
        assert(node@ == element_shape(TypeKind::Array, element.raw, length));
        let raw = ctx.intern(node);
        ArrayType { raw }
    }

    /// Returns the element type of this type.
    pub fn get_element(&self, ctx: &Context) -> (e: Type)
        requires
            ctx.wf(),
            self.valid(ctx),
        ensures
            e.raw == ctx.types[self.raw as int].element,
            e.valid(ctx),
    {
        proof {
            assert(Context::type_node_ok(ctx.types[self.raw as int]@, self.raw as int));
        }
        Type { raw: ctx.types[self.raw].element }
    }

    /// Returns the number of elements in this array type.
    pub fn get_length(&self, ctx: &Context) -> (n: usize)
        requires
            self.valid(ctx),
        ensures
            n == ctx.types[self.raw as int].count,
    {
        ctx.types[self.raw].count
    }
}

/// A function signature type.
#[derive(Clone, Copy, Debug, PartialEq, Eq, Structural)]
pub struct FunctionType {
    /// The raw handle.
    pub raw: usize,
}

impl NativeRef for FunctionType {
    open spec fn raw_spec(&self) -> usize {
        self.raw
    }

    open spec fn project(raw: usize) -> Self {
        FunctionType { raw }
    }

    fn from_raw(raw: usize) -> (r: Self) {
        FunctionType { raw }
    }

    fn as_raw(&self) -> (raw: usize) {
        self.raw
    }

    proof fn raw_round_trip(raw: usize) {
    }

    proof fn ref_round_trip(r: Self) {
    }
}

impl Sub<Type> for FunctionType {
    open spec fn known(ctx: &Context, c: &Type) -> bool {
        ctx.type_known(c.raw)
    }

    open spec fn is_spec(ctx: &Context, c: &Type) -> bool {
        ctx.types[pointee_root(ctx, c.raw) as int].kind == TypeKind::Function
    }

    open spec fn narrow(c: &Type) -> Self {
        FunctionType { raw: c.raw }
    }

    open spec fn widen(&self) -> Type {
        Type { raw: self.raw }
    }

    fn is(ctx: &Context, c: &Type) -> (b: bool) {
        ctx.types[signature_root(ctx, c.raw)].kind == TypeKind::Function
    }

    fn from_super(ctx: &Context, c: &Type) -> (r: Option<Self>) {
        if Self::is(ctx, c) {
            Some(FunctionType { raw: c.raw })
        } else {
            None
        }
    }

    fn to_super(&self) -> (r: Type) {
        Type { raw: self.raw }
    }

    proof fn widen_narrow(c: &Type) {
    }

    proof fn narrow_widen(s: &Self) {
    }
}

/// Whether a type with the kind tag `kind` narrows to the kind `want`: the
/// test on plain values, for a caller that holds no arena.
pub fn narrows_to(kind: TypeKind, want: TypeKind) -> (b: bool)
    ensures
        b == (kind == want),
{
    kind == want
}

/// The place in `chain` of the first kind tag that is no pointer, or the
/// length of `chain` where every tag is one.
pub open spec fn chain_end(chain: Seq<TypeKind>) -> int
    decreases chain.len(),
{
    if chain.len() == 0 || chain[0] != TypeKind::Pointer {
        0
    } else {
        1 + chain_end(chain.drop_first())
    }
}

/// Whether the chain of kind tags is that of a function type behind any
/// number of pointers: whether its first tag that is no pointer is the
/// function tag.
pub open spec fn function_like(chain: Seq<TypeKind>) -> bool {
    chain_end(chain) < chain.len() && chain[chain_end(chain)] == TypeKind::Function
}

/// Checks that a type narrows to a function type, from the kind tags along
/// its chain of pointers: the tag of the type itself, then that of its
/// pointee for as long as the one before is a pointer.
pub fn narrows_to_function(chain: &[TypeKind]) -> (b: bool)
    ensures
        b == function_like(chain@),
{
    let mut i: usize = 0;
    assert(chain@.subrange(0, chain.len() as int) =~= chain@);
    while i < chain.len() && chain[i] == TypeKind::Pointer
        invariant
            i <= chain.len(),
            chain_end(chain@) == i + chain_end(chain@.subrange(i as int, chain.len() as int)),
        decreases chain.len() - i,
    {
        proof {
            let rest = chain@.subrange(i as int, chain.len() as int);
            assert(rest[0] == chain@[i as int]);
            assert(rest.drop_first() =~= chain@.subrange(i + 1, chain.len() as int));
        }
        i += 1;
    }
    proof {
        let rest = chain@.subrange(i as int, chain.len() as int);
        if i < chain.len() {
            assert(rest[0] == chain@[i as int]);
        }
        assert(chain_end(rest) == 0);
    }
    i < chain.len() && chain[i] == TypeKind::Function
}

/// Follows the chain of pointers that starts at `raw` to its end.
pub fn signature_root(ctx: &Context, raw: usize) -> (root: usize)
    requires
        ctx.wf(),
        ctx.type_known(raw),
    ensures
        root == pointee_root(ctx, raw),
        ctx.type_known(root),
        ctx.types[root as int].kind != TypeKind::Pointer,
{
    let mut cur = raw;
    while ctx.types[cur].kind == TypeKind::Pointer
        invariant
            ctx.wf(),
            ctx.type_known(cur),
            pointee_root(ctx, cur) == pointee_root(ctx, raw),
        decreases cur,
    {
        proof {
            assert(Context::type_node_ok(ctx.types[cur as int]@, cur as int));
        }
        cur = ctx.types[cur].element;
    }
    cur
}

impl FunctionType {
    /// Whether this handle names a function type of `ctx`, directly or behind
    /// a chain of pointers.
    pub open spec fn valid(&self, ctx: &Context) -> bool {
        ctx.type_known(self.raw) && ctx.types[pointee_root(ctx, self.raw) as int].kind
            == TypeKind::Function
    }

    /// The signature's own node: the function type that the handle names or
    /// points to.
    pub open spec fn node(&self, ctx: &Context) -> TypeShape {
        ctx.types[pointee_root(ctx, self.raw) as int]@
    }

    /// The shape of the signature with this result and these parameters.
    pub open spec fn shape(ret: Type, args: Seq<Type>) -> TypeShape {
        TypeShape {
            kind: TypeKind::Function,
            element: ret.raw,
            members: raws_of(args),
            count: 0,
            packed: false,
            name: None,
        }
    }

    /// Makes a new function signature with the return type and arguments given.
    pub fn new(ctx: &mut Context, ret: &Type, args: &[Type]) -> (ty: FunctionType)
        requires
            old(ctx).wf(),
            ret.valid(old(ctx)),
            all_known(old(ctx), args@),
        ensures
            interned(old(ctx), final(ctx), Self::shape(*ret, args@), ty.raw),
            ty.valid(final(ctx)),
            final(ctx).types[ty.raw as int].kind == TypeKind::Function,
    {
        let members = raw_handles(args);
        let node = TypeNode {
            kind: TypeKind::Function,
            element: ret.raw,
            members,
            count: 0,
            packed: false,
            name: None,
        };
        assert(node@ == Self::shape(*ret, args@));
        let raw = ctx.intern(node);
        FunctionType { raw }
    }

    /// Returns the number of parameters this signature takes.
    pub fn num_params(&self, ctx: &Context) -> (n: usize)
        requires
            ctx.wf(),
            self.valid(ctx),
        ensures
            n == self.node(ctx).members.len(),
    {
        let root = signature_root(ctx, self.raw);
        ctx.types[root].members.len()
    }

    /// Returns a vector of this signature's parameters' types.
    pub fn get_params(&self, ctx: &Context) -> (params: Vec<Type>)
        requires
            ctx.wf(),
            self.valid(ctx),
        ensures
            params@ == types_of(self.node(ctx).members),
            all_known(ctx, params@),
    {
        let root = signature_root(ctx, self.raw);
        let params = type_refs(&ctx.types[root].members);
        proof {
            let shape = ctx.types[root as int]@;
            assert(Context::type_node_ok(shape, root as int));
            assert forall|i: int| 0 <= i < params@.len() implies ctx.type_known(
                #[trigger] params@[i].raw,
            ) by {
                assert(shape.members[i] == params@[i].raw);
            }
        }
        params
    }

    /// Returns the type that this function returns.
    pub fn get_return(&self, ctx: &Context) -> (ret: Type)
        requires
            ctx.wf(),
            self.valid(ctx),
        ensures
            ret.raw == self.node(ctx).element,
            ret.valid(ctx),
    {
        let root = signature_root(ctx, self.raw);
        proof {
            assert(Context::type_node_ok(ctx.types[root as int]@, root as int));
        }
        Type { raw: ctx.types[root].element }
    }
}

impl GetContext for Type {
    open spec fn valid_in(&self, ctx: &Context) -> bool {
        self.valid(ctx)
    }

    fn get_context<'a>(&self, ctx: &'a Context) -> (found: Option<&'a Context>) {
        if 0 < self.raw && self.raw < ctx.types.len() {
            Some(ctx)
        } else {
            None
        }
    }
}

impl GetContext for StructType {
    open spec fn valid_in(&self, ctx: &Context) -> bool {
        self.valid(ctx)
    }

    fn get_context<'a>(&self, ctx: &'a Context) -> (found: Option<&'a Context>) {
        if 0 < self.raw && self.raw < ctx.types.len() && ctx.types[self.raw].kind == TypeKind::Struct {
            Some(ctx)
        } else {
            None
        }
    }
}

impl GetContext for PointerType {
    open spec fn valid_in(&self, ctx: &Context) -> bool {
        self.valid(ctx)
    }

    fn get_context<'a>(&self, ctx: &'a Context) -> (found: Option<&'a Context>) {
        if 0 < self.raw && self.raw < ctx.types.len() && ctx.types[self.raw].kind == TypeKind::Pointer {
            Some(ctx)
        } else {
            None
        }
    }
}

impl GetContext for IntegerType {
    open spec fn valid_in(&self, ctx: &Context) -> bool {
        self.valid(ctx)
    }

    fn get_context<'a>(&self, ctx: &'a Context) -> (found: Option<&'a Context>) {
        if 0 < self.raw && self.raw < ctx.types.len() && ctx.types[self.raw].kind == TypeKind::Integer {
            Some(ctx)
        } else {
            None
        }
    }
}

impl GetContext for VectorType {
    open spec fn valid_in(&self, ctx: &Context) -> bool {
        self.valid(ctx)
    }

    fn get_context<'a>(&self, ctx: &'a Context) -> (found: Option<&'a Context>) {
        if 0 < self.raw && self.raw < ctx.types.len() && ctx.types[self.raw].kind == TypeKind::Vector {
            Some(ctx)
        } else {
            None
        }
    }
}

impl GetContext for ArrayType {
    open spec fn valid_in(&self, ctx: &Context) -> bool {
        self.valid(ctx)
    }

    fn get_context<'a>(&self, ctx: &'a Context) -> (found: Option<&'a Context>) {
        if 0 < self.raw && self.raw < ctx.types.len() && ctx.types[self.raw].kind == TypeKind::Array {
            Some(ctx)
        } else {
            None
        }
    }
}

impl GetContext for FunctionType {
    open spec fn valid_in(&self, ctx: &Context) -> bool {
        ctx.wf() && self.valid(ctx)
    }

    fn get_context<'a>(&self, ctx: &'a Context) -> (found: Option<&'a Context>) {
        if 0 < self.raw && self.raw < ctx.types.len() && ctx.check() && ctx.types[signature_root(
            ctx,
            self.raw,
        )].kind == TypeKind::Function {
            Some(ctx)
        } else {
            None
        }
    }
}

} // verus!
