//! Values: typed operands, and the flags and tags that go with them.

use vstd::prelude::*;
use vstd::string::StringSliceAdditionalSpecFns;
use crate::block::{BasicBlock, BlockIter};
use crate::context::{
    bare, interned, with_types_of, Context, GetContext, TypeKind, ValueNode,
};
use crate::types::{FunctionType, Type};
use crate::util::{NativeRef, Sub};

verus! {

/// The kind tag of a value node.
#[derive(Clone, Copy, Debug, PartialEq, Eq, Structural)]
pub enum ValueKind {
    Argument,
    BasicBlock,
    Function,
    GlobalAlias,
    GlobalVariable,
    Constant,
    Instruction,
    Phi,
}

impl ValueKind {
    /// Whether a value of this kind has global scope.
    pub open spec fn is_global(self) -> bool {
        self == ValueKind::Function || self == ValueKind::GlobalAlias || self
            == ValueKind::GlobalVariable
    }
}

/// Comparative operations on values.
#[derive(Clone, Copy, Debug, PartialEq, Eq, Structural)]
pub enum Predicate {
    Equal,
    NotEqual,
    GreaterThan,
    GreaterThanOrEqual,
    LessThan,
    LessThanOrEqual,
}

/// These indicate how arguments and functions are to be handled. Each stands
/// for a fixed pattern of bits in a 32-bit mask, and the patterns of two
/// attributes share no bit.
#[derive(Clone, Copy, Debug, PartialEq, Eq, Structural)]
pub enum Attribute {
    /// Zero-extended before or after call.
    ZExt,
    /// Sign-extended before or after call.
    SExt,
    /// Mark the function as not returning.
    NoReturn,
    /// Force argument to be passed in register.
    InReg,
    /// Hidden pointer to structure to return.
    StructRet,
    /// Function doesn't unwind stack.
    NoUnwind,
    /// Consider to not alias after call.
    NoAlias,
    /// Pass structure by value.
    ByVal,
    /// Nested function static chain.
    Nest,
    /// Function doesn't access memory.
    ReadNone,
    /// Function only reads from memory.
    ReadOnly,
    /// Never inline this function.
    NoInline,
    /// Always inline this function.
    AlwaysInline,
    /// Optimize this function for size.
    OptimizeForSize,
    /// Stack protection.
    StackProtect,
    /// Stack protection required.
    StackProtectReq,
    /// Alignment of parameter.
    Alignment,
    /// Function creates no aliases of pointer.
    NoCapture,
    /// Disable redzone.
    NoRedZone,
    /// Disable implicit float instructions.
    NoImplicitFloat,
    /// Only allows native assembly code in the function.
    Naked,
    /// The source language has marked this function as inline.
    InlineHint,
    /// Alignment of stack for function, three bits wide.
    StackAlignment,
    /// This function returns twice.
    ReturnsTwice,
    /// Function must be in unwind table.
    UWTable,
    /// Function is called early or often, so lazy binding isn't effective.
    NonLazyBind,
}

impl Attribute {
    /// The bits that stand for this attribute.
    pub open spec fn bits_spec(self) -> u32 {
        match self {
            Attribute::ZExt => 0x1,
            Attribute::SExt => 0x2,
            Attribute::NoReturn => 0x4,
            Attribute::InReg => 0x8,
            Attribute::StructRet => 0x10,
            Attribute::NoUnwind => 0x20,
            Attribute::NoAlias => 0x40,
            Attribute::ByVal => 0x80,
            Attribute::Nest => 0x100,
            Attribute::ReadNone => 0x200,
            Attribute::ReadOnly => 0x400,
            Attribute::NoInline => 0x800,
            Attribute::AlwaysInline => 0x1000,
            Attribute::OptimizeForSize => 0x2000,
            Attribute::StackProtect => 0x4000,
            Attribute::StackProtectReq => 0x8000,
            Attribute::Alignment => 0x10000,
            Attribute::NoCapture => 0x20000,
            Attribute::NoRedZone => 0x40000,
            Attribute::NoImplicitFloat => 0x80000,
            Attribute::Naked => 0x100000,
            Attribute::InlineHint => 0x200000,
            Attribute::StackAlignment => 0x1c000000,
            Attribute::ReturnsTwice => 0x20000000,
            Attribute::UWTable => 0x40000000,
            Attribute::NonLazyBind => 0x80000000,
        }
    }

    /// The bits that stand for this attribute.
    pub fn bits(self) -> (b: u32)
        ensures
            b == self.bits_spec(),
            b != 0,
    {
        match self {
            Attribute::ZExt => 0x1,
            Attribute::SExt => 0x2,
            Attribute::NoReturn => 0x4,
            Attribute::InReg => 0x8,
            Attribute::StructRet => 0x10,
            Attribute::NoUnwind => 0x20,
            Attribute::NoAlias => 0x40,
            Attribute::ByVal => 0x80,
            Attribute::Nest => 0x100,
            Attribute::ReadNone => 0x200,
            Attribute::ReadOnly => 0x400,
            Attribute::NoInline => 0x800,
            Attribute::AlwaysInline => 0x1000,
            Attribute::OptimizeForSize => 0x2000,
            Attribute::StackProtect => 0x4000,
            Attribute::StackProtectReq => 0x8000,
            Attribute::Alignment => 0x10000,
            Attribute::NoCapture => 0x20000,
            Attribute::NoRedZone => 0x40000,
            Attribute::NoImplicitFloat => 0x80000,
            Attribute::Naked => 0x100000,
            Attribute::InlineHint => 0x200000,
            Attribute::StackAlignment => 0x1c000000,
            Attribute::ReturnsTwice => 0x20000000,
            Attribute::UWTable => 0x40000000,
            Attribute::NonLazyBind => 0x80000000,
        }
    }

    /// The attribute that a pattern of bits stands for, if it is the pattern
    /// of exactly one.
    pub fn from_bits(bits: u32) -> (a: Option<Attribute>)
        ensures
            match a {
                Some(attr) => attr.bits_spec() == bits,
                None => forall|attr: Attribute| attr.bits_spec() != bits,
            },
    {
        match bits {
            0x1 => Some(Attribute::ZExt),
            0x2 => Some(Attribute::SExt),
            0x4 => Some(Attribute::NoReturn),
            0x8 => Some(Attribute::InReg),
            0x10 => Some(Attribute::StructRet),
            0x20 => Some(Attribute::NoUnwind),
            0x40 => Some(Attribute::NoAlias),
            0x80 => Some(Attribute::ByVal),
            0x100 => Some(Attribute::Nest),
            0x200 => Some(Attribute::ReadNone),
            0x400 => Some(Attribute::ReadOnly),
            0x800 => Some(Attribute::NoInline),
            0x1000 => Some(Attribute::AlwaysInline),
            0x2000 => Some(Attribute::OptimizeForSize),
            0x4000 => Some(Attribute::StackProtect),
            0x8000 => Some(Attribute::StackProtectReq),
            0x10000 => Some(Attribute::Alignment),
            0x20000 => Some(Attribute::NoCapture),
            0x40000 => Some(Attribute::NoRedZone),
            0x80000 => Some(Attribute::NoImplicitFloat),
            0x100000 => Some(Attribute::Naked),
            0x200000 => Some(Attribute::InlineHint),
            0x1c000000 => Some(Attribute::StackAlignment),
            0x20000000 => Some(Attribute::ReturnsTwice),
            0x40000000 => Some(Attribute::UWTable),
            0x80000000 => Some(Attribute::NonLazyBind),
            _ => None,
        }
    }

    /// Whether every bit of this attribute is set in `mask`.
    pub open spec fn in_mask(self, mask: u32) -> bool {
        mask & self.bits_spec() == self.bits_spec()
    }

    /// Whether every bit of this attribute is set in `mask`.
    pub fn is_in(self, mask: u32) -> (b: bool)
        ensures
            b == self.in_mask(mask),
    {
        let bits = self.bits();
        mask & bits == bits
    }

    /// The mask with the bits of each listed attribute set.
    pub open spec fn union_bits(attrs: Seq<Attribute>) -> u32
        decreases attrs.len(),
    {
        if attrs.len() == 0 {
            0
        } else {
            Self::union_bits(attrs.drop_last()) | attrs.last().bits_spec()
        }
    }

    /// Whether every listed attribute is in `mask`.
    pub open spec fn all_in_mask(attrs: Seq<Attribute>, mask: u32) -> bool {
        forall|i: int| 0 <= i < attrs.len() ==> (#[trigger] attrs[i]).in_mask(mask)
    }

    /// Sums the attributes given into one mask.
    pub fn sum(attrs: &[Attribute]) -> (mask: u32)
        ensures
            mask == Self::union_bits(attrs@),
    {
        let mut mask: u32 = 0;
        let mut i: usize = 0;
        while i < attrs.len()
            invariant
                i <= attrs.len(),
                mask == Self::union_bits(attrs@.subrange(0, i as int)),
            decreases attrs.len() - i,
        {
            mask = mask | attrs[i].bits();
            proof {
                assert(attrs@.subrange(0, i + 1).drop_last() =~= attrs@.subrange(0, i as int));
            }
            i += 1;
        }
        assert(attrs@.subrange(0, i as int) =~= attrs@);
        mask
    }

    /// Returns true if `mask` holds all the attributes given.
    pub fn all_in(attrs: &[Attribute], mask: u32) -> (b: bool)
        ensures
            b == Self::all_in_mask(attrs@, mask),
    {
        let mut i: usize = 0;
        while i < attrs.len()
            invariant
                i <= attrs.len(),
                forall|j: int| 0 <= j < i ==> (#[trigger] attrs@[j]).in_mask(mask),
            decreases attrs.len() - i,
        {
            if !attrs[i].is_in(mask) {
                return false;
            }
            i += 1;
        }
        true
    }
}

impl Attribute {
    /// The place of the one bit of an attribute that has one bit; the lowest
    /// place of the three of `StackAlignment`.
    pub open spec fn bit_place(self) -> u32 {
        match self {
            Attribute::ZExt => 0,
            Attribute::SExt => 1,
            Attribute::NoReturn => 2,
            Attribute::InReg => 3,
            Attribute::StructRet => 4,
            Attribute::NoUnwind => 5,
            Attribute::NoAlias => 6,
            Attribute::ByVal => 7,
            Attribute::Nest => 8,
            Attribute::ReadNone => 9,
            Attribute::ReadOnly => 10,
            Attribute::NoInline => 11,
            Attribute::AlwaysInline => 12,
            Attribute::OptimizeForSize => 13,
            Attribute::StackProtect => 14,
            Attribute::StackProtectReq => 15,
            Attribute::Alignment => 16,
            Attribute::NoCapture => 17,
            Attribute::NoRedZone => 18,
            Attribute::NoImplicitFloat => 19,
            Attribute::Naked => 20,
            Attribute::InlineHint => 21,
            Attribute::ReturnsTwice => 29,
            Attribute::UWTable => 30,
            Attribute::NonLazyBind => 31,
            Attribute::StackAlignment => 26,
        }
    }
}

/// The pattern of every attribute but `StackAlignment` is the single bit at
/// its place.
proof fn lemma_single_bit(a: Attribute)
    requires
        a != Attribute::StackAlignment,
    ensures
        a.bits_spec() == 1u32 << a.bit_place(),
        a.bit_place() < 32,
        a.bit_place() != 26 && a.bit_place() != 27 && a.bit_place() != 28,
{
    assert({
            &&& 1u32 << 0u32 == 0x1u32
            &&& 1u32 << 1u32 == 0x2u32
            &&& 1u32 << 2u32 == 0x4u32
            &&& 1u32 << 3u32 == 0x8u32
            &&& 1u32 << 4u32 == 0x10u32
            &&& 1u32 << 5u32 == 0x20u32
            &&& 1u32 << 6u32 == 0x40u32
            &&& 1u32 << 7u32 == 0x80u32
            &&& 1u32 << 8u32 == 0x100u32
            &&& 1u32 << 9u32 == 0x200u32
            &&& 1u32 << 10u32 == 0x400u32
            &&& 1u32 << 11u32 == 0x800u32
            &&& 1u32 << 12u32 == 0x1000u32
            &&& 1u32 << 13u32 == 0x2000u32
            &&& 1u32 << 14u32 == 0x4000u32
            &&& 1u32 << 15u32 == 0x8000u32
            &&& 1u32 << 16u32 == 0x10000u32
            &&& 1u32 << 17u32 == 0x20000u32
            &&& 1u32 << 18u32 == 0x40000u32
            &&& 1u32 << 19u32 == 0x80000u32
            &&& 1u32 << 20u32 == 0x100000u32
            &&& 1u32 << 21u32 == 0x200000u32
            &&& 1u32 << 29u32 == 0x20000000u32
            &&& 1u32 << 30u32 == 0x40000000u32
            &&& 1u32 << 31u32 == 0x80000000u32
    }) by (bit_vector);
}

/// The patterns of two different attributes share no bit.
pub proof fn lemma_attribute_bits_disjoint(a: Attribute, b: Attribute)
    requires
        a != b,
    ensures
        a.bits_spec() & b.bits_spec() == 0,
{
    if a == Attribute::StackAlignment {
        lemma_single_bit(b);
        let j = b.bit_place();
        assert(0x1c000000u32 & (1u32 << j) == 0) by (bit_vector)
            requires
                j < 32,
                j != 26 && j != 27 && j != 28,
        ;
    } else if b == Attribute::StackAlignment {
        lemma_single_bit(a);
        let i = a.bit_place();
        assert((1u32 << i) & 0x1c000000u32 == 0) by (bit_vector)
            requires
                i < 32,
                i != 26 && i != 27 && i != 28,
        ;
    } else {
        lemma_single_bit(a);
        lemma_single_bit(b);
        let i = a.bit_place();
        let j = b.bit_place();
        assert((1u32 << i) & (1u32 << j) == 0) by (bit_vector)
            requires
                i < 32,
                j < 32,
                i != j,
        ;
    }
}

/// Setting the bits of one attribute in a mask puts that attribute in and
/// changes nothing for any other.
pub proof fn lemma_mask_with(mask: u32, added: Attribute, a: Attribute)
    ensures
        a.in_mask(mask | added.bits_spec()) <==> a.in_mask(mask) || a == added,
{
    let x = a.bits_spec();
    let y = added.bits_spec();
    if a == added {
        assert((mask | x) & x == x) by (bit_vector);
    } else {
        lemma_attribute_bits_disjoint(a, added);
        assert(((mask | y) & x == x) == (mask & x == x)) by (bit_vector)
            requires
                x & y == 0,
        ;
    }
}

/// Clearing the bits of one attribute in a mask takes that attribute out and
/// changes nothing for any other.
pub proof fn lemma_mask_without(mask: u32, removed: Attribute, a: Attribute)
    ensures
        a.in_mask(mask & !removed.bits_spec()) <==> a.in_mask(mask) && a != removed,
{
    let x = a.bits_spec();
    let y = removed.bits_spec();
    if a == removed {
        assert(x != 0);
        assert((mask & !x) & x != x) by (bit_vector)
            requires
                x != 0,
        ;
    } else {
        lemma_attribute_bits_disjoint(a, removed);
        assert(((mask & !y) & x == x) == (mask & x == x)) by (bit_vector)
            requires
                x & y == 0,
        ;
    }
}

/// After a list of attributes was added to a mask, an attribute is in it
/// exactly if it was in it before or is one of the list.
pub proof fn lemma_mask_with_all(mask: u32, attrs: Seq<Attribute>, a: Attribute)
    ensures
        a.in_mask(mask | Attribute::union_bits(attrs)) <==> a.in_mask(mask) || attrs.contains(a),
    decreases attrs.len(),
{
    if attrs.len() == 0 {
        assert(mask | 0u32 == mask) by (bit_vector);
    } else {
        let front = attrs.drop_last();
        let last = attrs.last();
        let u = Attribute::union_bits(front);
        let l = last.bits_spec();
        lemma_mask_with_all(mask, front, a);
        lemma_mask_with(mask | u, last, a);
        assert(mask | (u | l) == (mask | u) | l) by (bit_vector);
        if attrs.contains(a) {
            let i = choose|i: int| 0 <= i < attrs.len() && attrs[i] == a;
            if i < attrs.len() - 1 {
                assert(front[i] == a);
            }
        }
        if front.contains(a) {
            let i = choose|i: int| 0 <= i < front.len() && front[i] == a;
            assert(attrs[i] == a);
        }
        assert(attrs[attrs.len() - 1] == last);
    }
}

/// A way of indicating how a global is to interact during linkage.
#[derive(Clone, Copy, Debug, PartialEq, Eq, Structural)]
pub enum Linkage {
    /// Default linkage. The global is externally visible and participates in linkage normally.
    External,
    /// Never emitted to the containing module's object file.
    AvailableExternally,
    /// Merged with other globals of the same name during linkage.
    LinkOnceAny,
    /// Like `LinkOnceAny`, but only merged with equivalent globals.
    LinkOnceODR,
    /// Like `LinkOnceAny`, but unreferenced globals are kept.
    WeakAny,
    /// Like `WeakAny`, but only merged with equivalent globals.
    WeakODR,
    /// Only allowed on global array pointers; merged globals are appended.
    Appending,
    /// Like `Private`, but shows as a local symbol in the object file.
    Internal,
    /// Only directly accessible by objects in the current module.
    Private,
    /// Weak until linked; if not linked, the symbol is null.
    ExternalWeak,
    /// Like `WeakAny`, for tentative definitions.
    Common,
}

impl Linkage {
    /// The number that stands for this linkage on the native side.
    pub open spec fn code_spec(self) -> u32 {
        match self {
            Linkage::External => 0,
            Linkage::AvailableExternally => 1,
            Linkage::LinkOnceAny => 2,
            Linkage::LinkOnceODR => 3,
            Linkage::WeakAny => 5,
            Linkage::WeakODR => 6,
            Linkage::Appending => 7,
            Linkage::Internal => 8,
            Linkage::Private => 9,
            Linkage::ExternalWeak => 12,
            Linkage::Common => 14,
        }
    }

    /// The number that stands for this linkage on the native side.
    pub fn code(self) -> (c: u32)
        ensures
            c == self.code_spec(),
    {
        match self {
            Linkage::External => 0,
            Linkage::AvailableExternally => 1,
            Linkage::LinkOnceAny => 2,
            Linkage::LinkOnceODR => 3,
            Linkage::WeakAny => 5,
            Linkage::WeakODR => 6,
            Linkage::Appending => 7,
            Linkage::Internal => 8,
            Linkage::Private => 9,
            Linkage::ExternalWeak => 12,
            Linkage::Common => 14,
        }
    }

    /// The linkage that a native number stands for, if it stands for one.
    pub fn from_code(code: u32) -> (l: Option<Linkage>)
        ensures
            match l {
                Some(linkage) => linkage.code_spec() == code,
                None => forall|linkage: Linkage| linkage.code_spec() != code,
            },
    {
        match code {
            0 => Some(Linkage::External),
            1 => Some(Linkage::AvailableExternally),
            2 => Some(Linkage::LinkOnceAny),
            3 => Some(Linkage::LinkOnceODR),
            5 => Some(Linkage::WeakAny),
            6 => Some(Linkage::WeakODR),
            7 => Some(Linkage::Appending),
            8 => Some(Linkage::Internal),
            9 => Some(Linkage::Private),
            12 => Some(Linkage::ExternalWeak),
            14 => Some(Linkage::Common),
            _ => None,
        }
    }
}

/// A linkage survives the trip to its native number and back, and no two
/// linkages share a number.
pub proof fn lemma_linkage_code_injective(a: Linkage, b: Linkage)
    ensures
        a.code_spec() == b.code_spec() <==> a == b,
{
}

/// No two attributes share their pattern of bits.
pub proof fn lemma_attribute_bits_injective(a: Attribute, b: Attribute)
    ensures
        a.bits_spec() == b.bits_spec() <==> a == b,
{
}

/// A typed value that can be used as an operand in instructions.
#[derive(Clone, Copy, Debug, PartialEq, Eq, Structural)]
pub struct Value {
    /// The raw handle.
    pub raw: usize,
}

impl NativeRef for Value {
    open spec fn raw_spec(&self) -> usize {
        self.raw
    }

    open spec fn project(raw: usize) -> Self {
        Value { raw }
    }

    fn from_raw(raw: usize) -> (r: Self) {
        Value { raw }
    }

    fn as_raw(&self) -> (raw: usize) {
        self.raw
    }

    proof fn raw_round_trip(raw: usize) {
    }

    proof fn ref_round_trip(r: Self) {
    }
}

impl Value {
    /// Whether this handle names a value of `ctx`.
    pub open spec fn valid(&self, ctx: &Context) -> bool {
        ctx.value_known(self.raw)
    }

    /// The kind tag of this value.
    pub open spec fn kind_spec(&self, ctx: &Context) -> ValueKind {
        ctx.values[self.raw as int].kind
    }

    /// The raw handle of this value's type.
    pub open spec fn type_raw(&self, ctx: &Context) -> usize {
        ctx.values[self.raw as int].ty
    }

    /// The kind tag of this value's type.
    pub open spec fn type_kind(&self, ctx: &Context) -> TypeKind {
        ctx.types[self.type_raw(ctx) as int].kind
    }

    /// Returns the kind tag of this value.
    pub fn kind(&self, ctx: &Context) -> (k: ValueKind)
        requires
            self.valid(ctx),
        ensures
            k == self.kind_spec(ctx),
    {
        ctx.values[self.raw].kind
    }

    /// Returns the name of this value, or `None` if it lacks a name.
    pub fn get_name(&self, ctx: &Context) -> (name: Option<Vec<u8>>)
        requires
            self.valid(ctx),
        ensures
            name.is_some() == ctx.values[self.raw as int].name.is_some(),
            name.is_some() ==> name.unwrap()@ == ctx.values[self.raw as int].name.unwrap()@,
    {
        match &ctx.values[self.raw].name {
            Some(n) => Some(crate::util::copy_bytes(n.as_slice())),
            None => None,
        }
    }

    /// Sets the name of this value.
    pub fn set_name(&self, ctx: &mut Context, name: &str)
        requires
            old(ctx).wf(),
            self.valid(old(ctx)),
            crate::util::nul_free(name.spec_bytes()),
        ensures
            final(ctx).wf(),
            value_updated(old(ctx), final(ctx), self.raw),
            final(ctx).values[self.raw as int].name.is_some(),
            final(ctx).values[self.raw as int].name.unwrap()@ == name.spec_bytes(),
            final(ctx).values[self.raw as int] == (ValueNode {
                name: final(ctx).values[self.raw as int].name,
                ..old(ctx).values[self.raw as int]
            }),
    {
        ctx.values[self.raw].name = Some(crate::util::to_bytes(name));
        proof {
            lemma_update_keeps_wf(old(ctx), ctx, self.raw);
        }
    }

    /// Returns the type of this value.
    pub fn get_type(&self, ctx: &Context) -> (ty: Type)
        requires
            ctx.wf(),
            self.valid(ctx),
        ensures
            ty.raw == ctx.values[self.raw as int].ty,
            ty.valid(ctx),
    {
        proof {
            assert(ctx.value_node_ok(&ctx.values[self.raw as int]));
        }
        Type { raw: ctx.values[self.raw].ty }
    }
}

/// Whether `after` differs from `before` in nothing but the value node `raw`.
pub open spec fn value_updated(before: &Context, after: &Context, raw: usize) -> bool {
    &&& after.types == before.types
    &&& after.values.len() == before.values.len()
    &&& forall|j: int|
        0 <= j < before.values.len() && j != raw ==> after.values[j] == #[trigger] before.values[j]
}

/// An arena stays well formed when one value node changes in what it holds
/// but not in what it is or refers to.
pub proof fn lemma_update_keeps_wf(before: &Context, after: &Context, raw: usize)
    requires
        before.wf(),
        before.value_known(raw),
        value_updated(before, after, raw),
        after.values[raw as int].kind == before.values[raw as int].kind,
        after.values[raw as int].ty == before.values[raw as int].ty,
        after.values[raw as int].params == before.values[raw as int].params,
        after.values[raw as int].blocks == before.values[raw as int].blocks,
        after.values[raw as int].members == before.values[raw as int].members,
        after.values[raw as int].initializer < after.values.len(),
    ensures
        after.wf(),
{
    assert forall|i: int| 0 < i < after.values.len() implies after.value_node_ok(
        #[trigger] &after.values[i],
    ) by {
        let old_node = &before.values[i];
        let node = &after.values[i];
        assert(before.value_node_ok(old_node));
        assert forall|j: int| 0 <= j < node.params.len() implies after.value_known(
            #[trigger] node.params[j],
        ) && after.values[node.params[j] as int].kind == ValueKind::Argument by {
            let p = old_node.params[j];
            assert(before.value_known(p));
            if p != raw {
                assert(after.values[p as int] == before.values[p as int]);
            }
        }
        assert forall|j: int| 0 <= j < node.members.len() implies after.value_known(
            #[trigger] node.members[j],
        ) by {
            assert(before.value_known(old_node.members[j]));
        }
        assert forall|j: int| 0 <= j < node.blocks.len() implies after.value_known(
            #[trigger] node.blocks[j],
        ) && after.values[node.blocks[j] as int].kind == ValueKind::BasicBlock by {
            let p = old_node.blocks[j];
            assert(before.value_known(p));
            if p != raw {
                assert(after.values[p as int] == before.values[p as int]);
            }
        }
    }
}

/// An argument that is passed to a function.
#[derive(Clone, Copy, Debug, PartialEq, Eq, Structural)]
pub struct Arg {
    /// The raw handle.
    pub raw: usize,
}

impl NativeRef for Arg {
    open spec fn raw_spec(&self) -> usize {
        self.raw
    }

    open spec fn project(raw: usize) -> Self {
        Arg { raw }
    }

    fn from_raw(raw: usize) -> (r: Self) {
        Arg { raw }
    }

    fn as_raw(&self) -> (raw: usize) {
        self.raw
    }

    proof fn raw_round_trip(raw: usize) {
    }

    proof fn ref_round_trip(r: Self) {
    }
}

impl Sub<Value> for Arg {
    open spec fn known(ctx: &Context, c: &Value) -> bool {
        ctx.value_known(c.raw)
    }

    open spec fn is_spec(ctx: &Context, c: &Value) -> bool {
        ctx.values[c.raw as int].kind == ValueKind::Argument
    }

    open spec fn narrow(c: &Value) -> Self {
        Arg { raw: c.raw }
    }

    open spec fn widen(&self) -> Value {
        Value { raw: self.raw }
    }

    fn is(ctx: &Context, c: &Value) -> (b: bool) {
        ctx.values[c.raw].kind == ValueKind::Argument
    }

    fn from_super(ctx: &Context, c: &Value) -> (r: Option<Self>) {
        if Self::is(ctx, c) {
            Some(Arg { raw: c.raw })
        } else {
            None
        }
    }

    fn to_super(&self) -> (r: Value) {
        Value { raw: self.raw }
    }

    proof fn widen_narrow(c: &Value) {
    }

    proof fn narrow_widen(s: &Self) {
    }
}

impl Arg {
    /// Whether this handle names a value of `ctx` of this kind.
    pub open spec fn valid(&self, ctx: &Context) -> bool {
        ctx.value_known(self.raw) && ctx.values[self.raw as int].kind == ValueKind::Argument
    }

    /// Adds the attribute given to this argument.
    pub fn add_attribute(&self, ctx: &mut Context, attr: Attribute)
        requires
            old(ctx).wf(),
            self.valid(old(ctx)),
        ensures
            final(ctx).wf(),
            value_updated(old(ctx), final(ctx), self.raw),
            final(ctx).values[self.raw as int] == (ValueNode {
                attrs: old(ctx).values[self.raw as int].attrs | attr.bits_spec(),
                ..old(ctx).values[self.raw as int]
            }),
            forall|a: Attribute|
                a.in_mask(final(ctx).values[self.raw as int].attrs) <==> a.in_mask(
                    old(ctx).values[self.raw as int].attrs,
                ) || a == attr,
    {
        let mask = ctx.values[self.raw].attrs | attr.bits();
        ctx.values[self.raw].attrs = mask;
        proof {
            assert(old(ctx).value_node_ok(&old(ctx).values[self.raw as int]));
            lemma_update_keeps_wf(old(ctx), ctx, self.raw);
            assert forall|a: Attribute|
                a.in_mask(mask) <==> a.in_mask(old(ctx).values[self.raw as int].attrs) || a
                    == attr by {
                lemma_mask_with(old(ctx).values[self.raw as int].attrs, attr, a);
            }
        }
    }

    /// Adds all the attributes given to this argument.
    pub fn add_attributes(&self, ctx: &mut Context, attrs: &[Attribute])
        requires
            old(ctx).wf(),
            self.valid(old(ctx)),
        ensures
            final(ctx).wf(),
            value_updated(old(ctx), final(ctx), self.raw),
            final(ctx).values[self.raw as int] == (ValueNode {
                attrs: old(ctx).values[self.raw as int].attrs | Attribute::union_bits(attrs@),
                ..old(ctx).values[self.raw as int]
            }),
            forall|a: Attribute|
                a.in_mask(final(ctx).values[self.raw as int].attrs) <==> a.in_mask(
                    old(ctx).values[self.raw as int].attrs,
                ) || attrs@.contains(a),
    {
        let mask = ctx.values[self.raw].attrs | Attribute::sum(attrs);
        ctx.values[self.raw].attrs = mask;
        proof {
            assert(old(ctx).value_node_ok(&old(ctx).values[self.raw as int]));
            lemma_update_keeps_wf(old(ctx), ctx, self.raw);
            assert forall|a: Attribute|
                a.in_mask(mask) <==> a.in_mask(old(ctx).values[self.raw as int].attrs)
                    || attrs@.contains(a) by {
                lemma_mask_with_all(old(ctx).values[self.raw as int].attrs, attrs@, a);
            }
        }
    }

    /// Returns true if this argument has the attribute given.
    pub fn has_attribute(&self, ctx: &Context, attr: Attribute) -> (b: bool)
        requires
            self.valid(ctx),
        ensures
            b == attr.in_mask(ctx.values[self.raw as int].attrs),
    {
        attr.is_in(ctx.values[self.raw].attrs)
    }

    /// Returns true if this argument has all the attributes given.
    pub fn has_attributes(&self, ctx: &Context, attrs: &[Attribute]) -> (b: bool)
        requires
            self.valid(ctx),
        ensures
            b == Attribute::all_in_mask(attrs@, ctx.values[self.raw as int].attrs),
    {
        Attribute::all_in(attrs, ctx.values[self.raw].attrs)
    }

    /// Removes the attribute given from this argument.
    pub fn remove_attribute(&self, ctx: &mut Context, attr: Attribute)
        requires
            old(ctx).wf(),
            self.valid(old(ctx)),
        ensures
            final(ctx).wf(),
            value_updated(old(ctx), final(ctx), self.raw),
            final(ctx).values[self.raw as int] == (ValueNode {
                attrs: old(ctx).values[self.raw as int].attrs & !attr.bits_spec(),
                ..old(ctx).values[self.raw as int]
            }),
            forall|a: Attribute|
                a.in_mask(final(ctx).values[self.raw as int].attrs) <==> a.in_mask(
                    old(ctx).values[self.raw as int].attrs,
                ) && a != attr,
    {
        let mask = ctx.values[self.raw].attrs & !attr.bits();
        ctx.values[self.raw].attrs = mask;
        proof {
            assert(old(ctx).value_node_ok(&old(ctx).values[self.raw as int]));
            lemma_update_keeps_wf(old(ctx), ctx, self.raw);
            assert forall|a: Attribute|
                a.in_mask(mask) <==> a.in_mask(old(ctx).values[self.raw as int].attrs) && a
                    != attr by {
                lemma_mask_without(old(ctx).values[self.raw as int].attrs, attr, a);
            }
        }
    }
}

/// A value with global scope: a function, an alias or a global variable.
#[derive(Clone, Copy, Debug, PartialEq, Eq, Structural)]
pub struct GlobalValue {
    /// The raw handle.
    pub raw: usize,
}

impl NativeRef for GlobalValue {
    open spec fn raw_spec(&self) -> usize {
        self.raw
    }

    open spec fn project(raw: usize) -> Self {
        GlobalValue { raw }
    }

    fn from_raw(raw: usize) -> (r: Self) {
        GlobalValue { raw }
    }

    fn as_raw(&self) -> (raw: usize) {
        self.raw
    }

    proof fn raw_round_trip(raw: usize) {
    }

    proof fn ref_round_trip(r: Self) {
    }
}

impl Sub<Value> for GlobalValue {
    open spec fn known(ctx: &Context, c: &Value) -> bool {
        ctx.value_known(c.raw)
    }

    open spec fn is_spec(ctx: &Context, c: &Value) -> bool {
        ctx.values[c.raw as int].kind.is_global()
    }

    open spec fn narrow(c: &Value) -> Self {
        GlobalValue { raw: c.raw }
    }

    open spec fn widen(&self) -> Value {
        Value { raw: self.raw }
    }

    fn is(ctx: &Context, c: &Value) -> (b: bool) {
        let kind = ctx.values[c.raw].kind;
        kind == ValueKind::Function || kind == ValueKind::GlobalAlias || kind
            == ValueKind::GlobalVariable
    }

    fn from_super(ctx: &Context, c: &Value) -> (r: Option<Self>) {
        if Self::is(ctx, c) {
            Some(GlobalValue { raw: c.raw })
        } else {
            None
        }
    }

    fn to_super(&self) -> (r: Value) {
        Value { raw: self.raw }
    }

    proof fn widen_narrow(c: &Value) {
    }

    proof fn narrow_widen(s: &Self) {
    }
}

impl GlobalValue {
    /// Whether this handle names a value of `ctx` of this kind.
    pub open spec fn valid(&self, ctx: &Context) -> bool {
        ctx.value_known(self.raw) && ctx.values[self.raw as int].kind.is_global()
    }

    /// Sets the linkage type for this global.
    pub fn set_linkage(&self, ctx: &mut Context, linkage: Linkage)
        requires
            old(ctx).wf(),
            self.valid(old(ctx)),
        ensures
            final(ctx).wf(),
            value_updated(old(ctx), final(ctx), self.raw),
            final(ctx).values[self.raw as int] == (ValueNode {
                linkage,
                ..old(ctx).values[self.raw as int]
            }),
    {
        ctx.values[self.raw].linkage = linkage;
        proof {
            assert(old(ctx).value_node_ok(&old(ctx).values[self.raw as int]));
            lemma_update_keeps_wf(old(ctx), ctx, self.raw);
        }
    }

    /// Returns the linkage type for this global.
    pub fn get_linkage(&self, ctx: &Context) -> (linkage: Linkage)
        requires
            self.valid(ctx),
        ensures
            linkage == ctx.values[self.raw as int].linkage,
    {
        ctx.values[self.raw].linkage
    }

    /// Whether the global is declared only: a function without a block, a
    /// variable without an initial value.
    pub open spec fn declared_only(&self, ctx: &Context) -> bool {
        let node = ctx.values[self.raw as int];
        match node.kind {
            ValueKind::Function => node.blocks.len() == 0,
            ValueKind::GlobalVariable => node.initializer == 0,
            _ => false,
        }
    }

    /// Returns true if this global is a declaration (as opposed to a definition).
    pub fn is_declaration(&self, ctx: &Context) -> (b: bool)
        requires
            self.valid(ctx),
        ensures
            b == self.declared_only(ctx),
    {
        let node = &ctx.values[self.raw];
        match node.kind {
            ValueKind::Function => node.blocks.len() == 0,
            ValueKind::GlobalVariable => node.initializer == 0,
            _ => false,
        }
    }
}

/// A global variable.
#[derive(Clone, Copy, Debug, PartialEq, Eq, Structural)]
pub struct GlobalVariable {
    /// The raw handle.
    pub raw: usize,
}

impl NativeRef for GlobalVariable {
    open spec fn raw_spec(&self) -> usize {
        self.raw
    }

    open spec fn project(raw: usize) -> Self {
        GlobalVariable { raw }
    }

    fn from_raw(raw: usize) -> (r: Self) {
        GlobalVariable { raw }
    }

    fn as_raw(&self) -> (raw: usize) {
        self.raw
    }

    proof fn raw_round_trip(raw: usize) {
    }

    proof fn ref_round_trip(r: Self) {
    }
}

impl Sub<GlobalValue> for GlobalVariable {
    open spec fn known(ctx: &Context, c: &GlobalValue) -> bool {
        ctx.value_known(c.raw)
    }

    open spec fn is_spec(ctx: &Context, c: &GlobalValue) -> bool {
        ctx.values[c.raw as int].kind == ValueKind::GlobalVariable
    }

    open spec fn narrow(c: &GlobalValue) -> Self {
        GlobalVariable { raw: c.raw }
    }

    open spec fn widen(&self) -> GlobalValue {
        GlobalValue { raw: self.raw }
    }

    fn is(ctx: &Context, c: &GlobalValue) -> (b: bool) {
        ctx.values[c.raw].kind == ValueKind::GlobalVariable
    }

    fn from_super(ctx: &Context, c: &GlobalValue) -> (r: Option<Self>) {
        if Self::is(ctx, c) {
            Some(GlobalVariable { raw: c.raw })
        } else {
            None
        }
    }

    fn to_super(&self) -> (r: GlobalValue) {
        GlobalValue { raw: self.raw }
    }

    proof fn widen_narrow(c: &GlobalValue) {
    }

    proof fn narrow_widen(s: &Self) {
    }
}

impl GlobalVariable {
    /// Whether this handle names a value of `ctx` of this kind.
    pub open spec fn valid(&self, ctx: &Context) -> bool {
        ctx.value_known(self.raw) && ctx.values[self.raw as int].kind == ValueKind::GlobalVariable
    }

    /// Sets the initial value of the global.
    pub fn set_initializer(&self, ctx: &mut Context, val: &Value)
        requires
            old(ctx).wf(),
            self.valid(old(ctx)),
            val.valid(old(ctx)),
        ensures
            final(ctx).wf(),
            value_updated(old(ctx), final(ctx), self.raw),
            final(ctx).values[self.raw as int] == (ValueNode {
                initializer: val.raw,
                ..old(ctx).values[self.raw as int]
            }),
    {
        ctx.values[self.raw].initializer = val.raw;
        proof {
            assert(old(ctx).value_node_ok(&old(ctx).values[self.raw as int]));
            lemma_update_keeps_wf(old(ctx), ctx, self.raw);
        }
    }

    /// Returns the initial value of the global, or `None` if it has none.
    pub fn get_initializer(&self, ctx: &Context) -> (val: Option<Value>)
        requires
            ctx.wf(),
            self.valid(ctx),
        ensures
            val == (if ctx.values[self.raw as int].initializer == 0 {
                None
            } else {
                Some(Value { raw: ctx.values[self.raw as int].initializer })
            }),
            val.is_some() ==> val.unwrap().valid(ctx),
    {
        proof {
            assert(ctx.value_node_ok(&ctx.values[self.raw as int]));
        }
        crate::util::ptr_to_null::<Value>(ctx.values[self.raw].initializer)
    }

    /// Sets whether this global is a constant.
    pub fn set_constant(&self, ctx: &mut Context, is_constant: bool)
        requires
            old(ctx).wf(),
            self.valid(old(ctx)),
        ensures
            final(ctx).wf(),
            value_updated(old(ctx), final(ctx), self.raw),
            final(ctx).values[self.raw as int] == (ValueNode {
                constant: is_constant,
                ..old(ctx).values[self.raw as int]
            }),
    {
        ctx.values[self.raw].constant = is_constant;
        proof {
            assert(old(ctx).value_node_ok(&old(ctx).values[self.raw as int]));
            lemma_update_keeps_wf(old(ctx), ctx, self.raw);
        }
    }

    /// Returns true if this global is a constant.
    pub fn get_constant(&self, ctx: &Context) -> (b: bool)
        requires
            self.valid(ctx),
        ensures
            b == ctx.values[self.raw as int].constant,
    {
        ctx.values[self.raw].constant
    }
}

/// An alias to another global value.
#[derive(Clone, Copy, Debug, PartialEq, Eq, Structural)]
pub struct Alias {
    /// The raw handle.
    pub raw: usize,
}

impl NativeRef for Alias {
    open spec fn raw_spec(&self) -> usize {
        self.raw
    }

    open spec fn project(raw: usize) -> Self {
        Alias { raw }
    }

    fn from_raw(raw: usize) -> (r: Self) {
        Alias { raw }
    }

    fn as_raw(&self) -> (raw: usize) {
        self.raw
    }

    proof fn raw_round_trip(raw: usize) {
    }

    proof fn ref_round_trip(r: Self) {
    }
}

impl Sub<GlobalValue> for Alias {
    open spec fn known(ctx: &Context, c: &GlobalValue) -> bool {
        ctx.value_known(c.raw)
    }

    open spec fn is_spec(ctx: &Context, c: &GlobalValue) -> bool {
        ctx.values[c.raw as int].kind == ValueKind::GlobalAlias
    }

    open spec fn narrow(c: &GlobalValue) -> Self {
        Alias { raw: c.raw }
    }

    open spec fn widen(&self) -> GlobalValue {
        GlobalValue { raw: self.raw }
    }

    fn is(ctx: &Context, c: &GlobalValue) -> (b: bool) {
        ctx.values[c.raw].kind == ValueKind::GlobalAlias
    }

    fn from_super(ctx: &Context, c: &GlobalValue) -> (r: Option<Self>) {
        if Self::is(ctx, c) {
            Some(Alias { raw: c.raw })
        } else {
            None
        }
    }

    fn to_super(&self) -> (r: GlobalValue) {
        GlobalValue { raw: self.raw }
    }

    proof fn widen_narrow(c: &GlobalValue) {
    }

    proof fn narrow_widen(s: &Self) {
    }
}

impl Alias {
    /// Whether this handle names a value of `ctx` of this kind.
    pub open spec fn valid(&self, ctx: &Context) -> bool {
        ctx.value_known(self.raw) && ctx.values[self.raw as int].kind == ValueKind::GlobalAlias
    }
}

/// A function is a kind of value that can be called and contains blocks of code.
#[derive(Clone, Copy, Debug, PartialEq, Eq, Structural)]
pub struct Function {
    /// The raw handle.
    pub raw: usize,
}

impl NativeRef for Function {
    open spec fn raw_spec(&self) -> usize {
        self.raw
    }

    open spec fn project(raw: usize) -> Self {
        Function { raw }
    }

    fn from_raw(raw: usize) -> (r: Self) {
        Function { raw }
    }

    fn as_raw(&self) -> (raw: usize) {
        self.raw
    }

    proof fn raw_round_trip(raw: usize) {
    }

    proof fn ref_round_trip(r: Self) {
    }
}

impl Sub<GlobalValue> for Function {
    open spec fn known(ctx: &Context, c: &GlobalValue) -> bool {
        ctx.value_known(c.raw)
    }

    open spec fn is_spec(ctx: &Context, c: &GlobalValue) -> bool {
        ctx.values[c.raw as int].kind == ValueKind::Function
    }

    open spec fn narrow(c: &GlobalValue) -> Self {
        Function { raw: c.raw }
    }

    open spec fn widen(&self) -> GlobalValue {
        GlobalValue { raw: self.raw }
    }

    fn is(ctx: &Context, c: &GlobalValue) -> (b: bool) {
        ctx.values[c.raw].kind == ValueKind::Function
    }

    fn from_super(ctx: &Context, c: &GlobalValue) -> (r: Option<Self>) {
        if Self::is(ctx, c) {
            Some(Function { raw: c.raw })
        } else {
            None
        }
    }

    fn to_super(&self) -> (r: GlobalValue) {
        GlobalValue { raw: self.raw }
    }

    proof fn widen_narrow(c: &GlobalValue) {
    }

    proof fn narrow_widen(s: &Self) {
    }
}

impl Sub<Value> for Function {
    open spec fn known(ctx: &Context, c: &Value) -> bool {
        ctx.value_known(c.raw)
    }

    open spec fn is_spec(ctx: &Context, c: &Value) -> bool {
        ctx.types[crate::types::pointee_root(ctx, ctx.values[c.raw as int].ty) as int].kind
            == TypeKind::Function
    }

    open spec fn narrow(c: &Value) -> Self {
        Function { raw: c.raw }
    }

    open spec fn widen(&self) -> Value {
        Value { raw: self.raw }
    }

    fn is(ctx: &Context, c: &Value) -> (b: bool) {
        let ty = c.get_type(ctx);
        <FunctionType as Sub<Type>>::is(ctx, &ty)
    }

    fn from_super(ctx: &Context, c: &Value) -> (r: Option<Self>) {
        if Self::is(ctx, c) {
            Some(Function { raw: c.raw })
        } else {
            None
        }
    }

    fn to_super(&self) -> (r: Value) {
        Value { raw: self.raw }
    }

    proof fn widen_narrow(c: &Value) {
    }

    proof fn narrow_widen(s: &Self) {
    }
}

impl Function {
    /// Whether this handle names a value of `ctx` of this kind.
    pub open spec fn valid(&self, ctx: &Context) -> bool {
        ctx.value_known(self.raw) && ctx.values[self.raw as int].kind == ValueKind::Function
    }

    /// Returns the number of arguments that this function takes.
    pub fn count_params(&self, ctx: &Context) -> (n: usize)
        requires
            self.valid(ctx),
        ensures
            n == ctx.values[self.raw as int].params.len(),
    {
        ctx.values[self.raw].params.len()
    }

    /// Returns the value that stands for the argument at `index`.
    pub fn index(&self, ctx: &Context, index: usize) -> (arg: Arg)
        requires
            ctx.wf(),
            self.valid(ctx),
            index < ctx.values[self.raw as int].params.len(),
        ensures
            arg.raw == ctx.values[self.raw as int].params[index as int],
            arg.valid(ctx),
    {
        proof {
            assert(ctx.value_node_ok(&ctx.values[self.raw as int]));
        }
        Arg { raw: ctx.values[self.raw].params[index] }
    }

    /// Adds a basic block with the name given to the end of the function and
    /// returns it.
    pub fn append(&self, ctx: &mut Context, name: &str) -> (block: BasicBlock)
        requires
            old(ctx).wf(),
            self.valid(old(ctx)),
            crate::util::nul_free(name.spec_bytes()),
        ensures
            final(ctx).wf(),
            old(ctx).types_kept_by(final(ctx)),
            block.raw == old(ctx).values.len(),
            block.valid(final(ctx)),
            final(ctx).values.len() == old(ctx).values.len() + 1,
            final(ctx).values[block.raw as int].name.is_some(),
            final(ctx).values[block.raw as int].name.unwrap()@ == name.spec_bytes(),
            interned(
                old(ctx),
                &with_types_of(old(ctx), final(ctx)),
                crate::types::scalar_shape(TypeKind::Label, 0),
                final(ctx).values[block.raw as int].ty,
            ),
            bare(
                final(ctx).values[block.raw as int],
                ValueKind::BasicBlock,
                final(ctx).values[block.raw as int].ty,
            ),
            final(ctx).values[self.raw as int].blocks@ == old(ctx).values[self.raw as int].blocks@.push(
                block.raw,
            ),
            final(ctx).values[self.raw as int] == (ValueNode {
                blocks: final(ctx).values[self.raw as int].blocks,
                ..old(ctx).values[self.raw as int]
            }),
            forall|j: int|
                0 <= j < old(ctx).values.len() && j != self.raw ==> final(ctx).values[j]
                    == #[trigger] old(ctx).values[j],
    {
        let label = crate::compile::scalar_type(ctx, TypeKind::Label, 0);
        let ghost mid = *ctx;
        proof {
            assert(ctx.value_node_ok(&ctx.values[self.raw as int]));
        }
        let node = ValueNode {
            kind: ValueKind::BasicBlock,
            ty: label.raw,
            name: Some(crate::util::to_bytes(name)),
            attrs: 0,
            linkage: Linkage::External,
            constant: false,
            initializer: 0,
            params: Vec::new(),
            blocks: Vec::new(),
            members: Vec::new(),
            bits: 0,
        };
        let raw = ctx.push_value(node);
        let ghost pushed = *ctx;
        ctx.values[self.raw].blocks.push(raw);
        proof {
            assert forall|i: int| 0 < i < ctx.values.len() implies ctx.value_node_ok(
                #[trigger] &ctx.values[i],
            ) by {
                assert(pushed.value_node_ok(&pushed.values[i]));
            }
        }
        BasicBlock { raw }
    }

    /// Iterates through this function's basic blocks.
    pub fn blocks(&self, ctx: &Context) -> (iter: BlockIter)
        requires
            ctx.wf(),
            self.valid(ctx),
        ensures
            iter.wf(),
            iter.blocks@ == crate::block::blocks_of(ctx.values[self.raw as int].blocks@),
            iter.min == 0,
            iter.max == iter.blocks.len(),
            iter.remaining() == crate::block::blocks_of(ctx.values[self.raw as int].blocks@),
    {
        BlockIter::new(ctx, self)
    }

    /// Returns the entry block of this function or `None` if there is none.
    pub fn get_entry(&self, ctx: &Context) -> (entry: Option<BasicBlock>)
        requires
            ctx.wf(),
            self.valid(ctx),
        ensures
            entry == (if ctx.values[self.raw as int].blocks.len() == 0 {
                None
            } else {
                Some(BasicBlock { raw: ctx.values[self.raw as int].blocks[0] })
            }),
            entry.is_some() ==> entry.unwrap().valid(ctx),
    {
        proof {
            assert(ctx.value_node_ok(&ctx.values[self.raw as int]));
        }
        if ctx.values[self.raw].blocks.len() == 0 {
            None
        } else {
            Some(BasicBlock { raw: ctx.values[self.raw].blocks[0] })
        }
    }

    /// Returns the function signature representing this function's signature:
    /// the type that the function's pointer type points to.
    pub fn get_signature(&self, ctx: &Context) -> (sig: FunctionType)
        requires
            ctx.wf(),
            self.valid(ctx),
        ensures
            sig.raw == ctx.types[ctx.values[self.raw as int].ty as int].element,
            sig.valid(ctx),
            ctx.types[sig.raw as int].kind == TypeKind::Function,
    {
        proof {
            let node = &ctx.values[self.raw as int];
            assert(ctx.value_node_ok(node));
            assert(Context::type_node_ok(ctx.types[node.ty as int]@, node.ty as int));
        }
        let ty = ctx.values[self.raw].ty;
        FunctionType { raw: ctx.types[ty].element }
    }

    /// Adds the attribute given to this function.
    pub fn add_attribute(&self, ctx: &mut Context, attr: Attribute)
        requires
            old(ctx).wf(),
            self.valid(old(ctx)),
        ensures
            final(ctx).wf(),
            value_updated(old(ctx), final(ctx), self.raw),
            final(ctx).values[self.raw as int] == (ValueNode {
                attrs: old(ctx).values[self.raw as int].attrs | attr.bits_spec(),
                ..old(ctx).values[self.raw as int]
            }),
            forall|a: Attribute|
                a.in_mask(final(ctx).values[self.raw as int].attrs) <==> a.in_mask(
                    old(ctx).values[self.raw as int].attrs,
                ) || a == attr,
    {
        let mask = ctx.values[self.raw].attrs | attr.bits();
        ctx.values[self.raw].attrs = mask;
        proof {
            assert(old(ctx).value_node_ok(&old(ctx).values[self.raw as int]));
            lemma_update_keeps_wf(old(ctx), ctx, self.raw);
            assert forall|a: Attribute|
                a.in_mask(mask) <==> a.in_mask(old(ctx).values[self.raw as int].attrs) || a
                    == attr by {
                lemma_mask_with(old(ctx).values[self.raw as int].attrs, attr, a);
            }
        }
    }

    /// Adds all the attributes given to this function.
    pub fn add_attributes(&self, ctx: &mut Context, attrs: &[Attribute])
        requires
            old(ctx).wf(),
            self.valid(old(ctx)),
        ensures
            final(ctx).wf(),
            value_updated(old(ctx), final(ctx), self.raw),
            final(ctx).values[self.raw as int] == (ValueNode {
                attrs: old(ctx).values[self.raw as int].attrs | Attribute::union_bits(attrs@),
                ..old(ctx).values[self.raw as int]
            }),
            forall|a: Attribute|
                a.in_mask(final(ctx).values[self.raw as int].attrs) <==> a.in_mask(
                    old(ctx).values[self.raw as int].attrs,
                ) || attrs@.contains(a),
    {
        let mask = ctx.values[self.raw].attrs | Attribute::sum(attrs);
        ctx.values[self.raw].attrs = mask;
        proof {
            assert(old(ctx).value_node_ok(&old(ctx).values[self.raw as int]));
            lemma_update_keeps_wf(old(ctx), ctx, self.raw);
            assert forall|a: Attribute|
                a.in_mask(mask) <==> a.in_mask(old(ctx).values[self.raw as int].attrs)
                    || attrs@.contains(a) by {
                lemma_mask_with_all(old(ctx).values[self.raw as int].attrs, attrs@, a);
            }
        }
    }

    /// Returns true if this function has the attribute given.
    pub fn has_attribute(&self, ctx: &Context, attr: Attribute) -> (b: bool)
        requires
            self.valid(ctx),
        ensures
            b == attr.in_mask(ctx.values[self.raw as int].attrs),
    {
        attr.is_in(ctx.values[self.raw].attrs)
    }

    /// Returns true if this function has all the attributes given.
    pub fn has_attributes(&self, ctx: &Context, attrs: &[Attribute]) -> (b: bool)
        requires
            self.valid(ctx),
        ensures
            b == Attribute::all_in_mask(attrs@, ctx.values[self.raw as int].attrs),
    {
        Attribute::all_in(attrs, ctx.values[self.raw].attrs)
    }

    /// Removes the attribute given from this function.
    pub fn remove_attribute(&self, ctx: &mut Context, attr: Attribute)
        requires
            old(ctx).wf(),
            self.valid(old(ctx)),
        ensures
            final(ctx).wf(),
            value_updated(old(ctx), final(ctx), self.raw),
            final(ctx).values[self.raw as int] == (ValueNode {
                attrs: old(ctx).values[self.raw as int].attrs & !attr.bits_spec(),
                ..old(ctx).values[self.raw as int]
            }),
            forall|a: Attribute|
                a.in_mask(final(ctx).values[self.raw as int].attrs) <==> a.in_mask(
                    old(ctx).values[self.raw as int].attrs,
                ) && a != attr,
    {
        let mask = ctx.values[self.raw].attrs & !attr.bits();
        ctx.values[self.raw].attrs = mask;
        proof {
            assert(old(ctx).value_node_ok(&old(ctx).values[self.raw as int]));
            lemma_update_keeps_wf(old(ctx), ctx, self.raw);
            assert forall|a: Attribute|
                a.in_mask(mask) <==> a.in_mask(old(ctx).values[self.raw as int].attrs) && a
                    != attr by {
                lemma_mask_without(old(ctx).values[self.raw as int].attrs, attr, a);
            }
        }
    }
}
impl GetContext for Value {
    open spec fn valid_in(&self, ctx: &Context) -> bool {
        self.valid(ctx)
    }

    fn get_context<'a>(&self, ctx: &'a Context) -> (found: Option<&'a Context>) {
        if 0 < self.raw && self.raw < ctx.values.len() {
            Some(ctx)
        } else {
            None
        }
    }
}

impl GetContext for Arg {
    open spec fn valid_in(&self, ctx: &Context) -> bool {
        self.valid(ctx)
    }

    fn get_context<'a>(&self, ctx: &'a Context) -> (found: Option<&'a Context>) {
        if 0 < self.raw && self.raw < ctx.values.len() && ctx.values[self.raw].kind == ValueKind::Argument {
            Some(ctx)
        } else {
            None
        }
    }
}

impl GetContext for GlobalVariable {
    open spec fn valid_in(&self, ctx: &Context) -> bool {
        self.valid(ctx)
    }

    fn get_context<'a>(&self, ctx: &'a Context) -> (found: Option<&'a Context>) {
        if 0 < self.raw && self.raw < ctx.values.len() && ctx.values[self.raw].kind == ValueKind::GlobalVariable {
            Some(ctx)
        } else {
            None
        }
    }
}

impl GetContext for Alias {
    open spec fn valid_in(&self, ctx: &Context) -> bool {
        self.valid(ctx)
    }

    fn get_context<'a>(&self, ctx: &'a Context) -> (found: Option<&'a Context>) {
        if 0 < self.raw && self.raw < ctx.values.len() && ctx.values[self.raw].kind == ValueKind::GlobalAlias {
            Some(ctx)
        } else {
            None
        }
    }
}

impl GetContext for Function {
    open spec fn valid_in(&self, ctx: &Context) -> bool {
        self.valid(ctx)
    }

    fn get_context<'a>(&self, ctx: &'a Context) -> (found: Option<&'a Context>) {
        if 0 < self.raw && self.raw < ctx.values.len() && ctx.values[self.raw].kind == ValueKind::Function {
            Some(ctx)
        } else {
            None
        }
    }
}

impl GetContext for GlobalValue {
    open spec fn valid_in(&self, ctx: &Context) -> bool {
        self.valid(ctx)
    }

    fn get_context<'a>(&self, ctx: &'a Context) -> (found: Option<&'a Context>) {
        if 0 < self.raw && self.raw < ctx.values.len() && (ctx.values[self.raw].kind == ValueKind::Function
            || ctx.values[self.raw].kind == ValueKind::GlobalAlias || ctx.values[self.raw].kind
            == ValueKind::GlobalVariable) {
            Some(ctx)
        } else {
            None
        }
    }
}

} // verus!
