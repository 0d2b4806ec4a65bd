//! The instruction builder and the choices it makes between native calls.

use vstd::prelude::*;
use crate::context::{Context, TypeKind};
use crate::util::NativeRef;
use crate::value::{Predicate, Value};

verus! {

/// The signed integer comparisons of the native library.
#[derive(Clone, Copy, Debug, PartialEq, Eq, Structural)]
pub enum IntPredicate {
    EQ,
    NE,
    SGT,
    SGE,
    SLT,
    SLE,
}

/// The ordered floating-point comparisons of the native library.
#[derive(Clone, Copy, Debug, PartialEq, Eq, Structural)]
pub enum RealPredicate {
    OEQ,
    ONE,
    OGT,
    OGE,
    OLT,
    OLE,
}

/// A comparison instruction to build: which family, and with which predicate.
#[derive(Clone, Copy, Debug, PartialEq, Eq, Structural)]
pub enum Comparison {
    Int(IntPredicate),
    Real(RealPredicate),
}

/// The family of an arithmetic instruction to build.
#[derive(Clone, Copy, Debug, PartialEq, Eq, Structural)]
pub enum Arithmetic {
    Int,
    Real,
}

impl IntPredicate {
    /// The number that stands for this predicate on the native side.
    pub open spec fn code_spec(self) -> u32 {
        match self {
            IntPredicate::EQ => 32,
            IntPredicate::NE => 33,
            IntPredicate::SGT => 38,
            IntPredicate::SGE => 39,
            IntPredicate::SLT => 40,
            IntPredicate::SLE => 41,
        }
    }

    /// The number that stands for this predicate on the native side.
    pub fn code(self) -> (c: u32)
        ensures
            c == self.code_spec(),
    {
        match self {
            IntPredicate::EQ => 32,
            IntPredicate::NE => 33,
            IntPredicate::SGT => 38,
            IntPredicate::SGE => 39,
            IntPredicate::SLT => 40,
            IntPredicate::SLE => 41,
        }
    }
}

impl RealPredicate {
    /// The number that stands for this predicate on the native side.
    pub open spec fn code_spec(self) -> u32 {
        match self {
            RealPredicate::OEQ => 1,
            RealPredicate::OGT => 2,
            RealPredicate::OGE => 3,
            RealPredicate::OLT => 4,
            RealPredicate::OLE => 5,
            RealPredicate::ONE => 6,
        }
    }

    /// The number that stands for this predicate on the native side.
    pub fn code(self) -> (c: u32)
        ensures
            c == self.code_spec(),
    {
        match self {
            RealPredicate::OEQ => 1,
            RealPredicate::OGT => 2,
            RealPredicate::OGE => 3,
            RealPredicate::OLT => 4,
            RealPredicate::OLE => 5,
            RealPredicate::ONE => 6,
        }
    }
}

/// The signed integer comparison that stands for `pred`.
pub open spec fn int_predicate(pred: Predicate) -> IntPredicate {
    match pred {
        Predicate::Equal => IntPredicate::EQ,
        Predicate::NotEqual => IntPredicate::NE,
        Predicate::GreaterThan => IntPredicate::SGT,
        Predicate::GreaterThanOrEqual => IntPredicate::SGE,
        Predicate::LessThan => IntPredicate::SLT,
        Predicate::LessThanOrEqual => IntPredicate::SLE,
    }
}

/// The ordered floating-point comparison that stands for `pred`.
pub open spec fn real_predicate(pred: Predicate) -> RealPredicate {
    match pred {
        Predicate::Equal => RealPredicate::OEQ,
        Predicate::NotEqual => RealPredicate::ONE,
        Predicate::GreaterThan => RealPredicate::OGT,
        Predicate::GreaterThanOrEqual => RealPredicate::OGE,
        Predicate::LessThan => RealPredicate::OLT,
        Predicate::LessThanOrEqual => RealPredicate::OLE,
    }
}

/// Whether a type of this kind is a floating-point number.
pub open spec fn is_float_kind(kind: TypeKind) -> bool {
    kind == TypeKind::Half || kind == TypeKind::Float || kind == TypeKind::Double
}

/// The comparison to build on operands of a type of the kind given: a signed
/// integer comparison on integers, an ordered one on floating-point numbers,
/// and none on anything else.
pub open spec fn comparison_for(kind: TypeKind, pred: Predicate) -> Option<Comparison> {
    if kind == TypeKind::Integer {
        Some(Comparison::Int(int_predicate(pred)))
    } else if is_float_kind(kind) {
        Some(Comparison::Real(real_predicate(pred)))
    } else {
        None
    }
}

/// Picks the signed integer comparison that stands for `pred`.
pub fn to_int_predicate(pred: Predicate) -> (p: IntPredicate)
    ensures
        p == int_predicate(pred),
{
    match pred {
        Predicate::Equal => IntPredicate::EQ,
        Predicate::NotEqual => IntPredicate::NE,
        Predicate::GreaterThan => IntPredicate::SGT,
        Predicate::GreaterThanOrEqual => IntPredicate::SGE,
        Predicate::LessThan => IntPredicate::SLT,
        Predicate::LessThanOrEqual => IntPredicate::SLE,
    }
}

/// Picks the ordered floating-point comparison that stands for `pred`.
pub fn to_real_predicate(pred: Predicate) -> (p: RealPredicate)
    ensures
        p == real_predicate(pred),
{
    match pred {
        Predicate::Equal => RealPredicate::OEQ,
        Predicate::NotEqual => RealPredicate::ONE,
        Predicate::GreaterThan => RealPredicate::OGT,
        Predicate::GreaterThanOrEqual => RealPredicate::OGE,
        Predicate::LessThan => RealPredicate::OLT,
        Predicate::LessThanOrEqual => RealPredicate::OLE,
    }
}

/// Chooses the comparison to build on operands of a type of the kind given.
pub fn select_comparison(kind: TypeKind, pred: Predicate) -> (c: Option<Comparison>)
    ensures
        c == comparison_for(kind, pred),
{
    if kind == TypeKind::Integer {
        Some(Comparison::Int(to_int_predicate(pred)))
    } else if kind == TypeKind::Half || kind == TypeKind::Float || kind == TypeKind::Double {
        Some(Comparison::Real(to_real_predicate(pred)))
    } else {
        None
    }
}

/// This provides a uniform API for creating instructions and inserting them into a basic block.
#[derive(Clone, Copy, Debug, PartialEq, Eq, Structural)]
pub struct Builder {
    /// The raw handle.
    pub raw: usize,
}

impl NativeRef for Builder {
    open spec fn raw_spec(&self) -> usize {
        self.raw
    }

    open spec fn project(raw: usize) -> Self {
        Builder { raw }
    }

    fn from_raw(raw: usize) -> (r: Self) {
        Builder { raw }
    }

    fn as_raw(&self) -> (raw: usize) {
        self.raw
    }

    proof fn raw_round_trip(raw: usize) {
    }

    proof fn ref_round_trip(r: Self) {
    }
}

impl Builder {
    /// Chooses the instruction that compares the values `a` and `b` with the
    /// comparative operator `pred`. The two must have the same type, and it
    /// must be a number type.
    pub fn build_cmp(&self, ctx: &Context, a: &Value, b: &Value, pred: Predicate) -> (c: Comparison)
        requires
            ctx.wf(),
            a.valid(ctx),
            b.valid(ctx),
            a.type_raw(ctx) == b.type_raw(ctx),
            comparison_for(a.type_kind(ctx), pred).is_some(),
        ensures
            Some(c) == comparison_for(a.type_kind(ctx), pred),
    {
        let at = a.get_type(ctx);
        if at.is_integer(ctx) {
            Comparison::Int(to_int_predicate(pred))
        } else {
            Comparison::Real(to_real_predicate(pred))
        }
    }

    /// Chooses the comparison for `a` and `b` where there is one: `None`
    /// where the two differ in type or are no numbers.
    pub fn try_comparison(&self, ctx: &Context, a: &Value, b: &Value, pred: Predicate) -> (c: Option<
        Comparison,
    >)
        requires
            ctx.wf(),
            a.valid(ctx),
            b.valid(ctx),
        ensures
            c == (if a.type_raw(ctx) == b.type_raw(ctx) {
                comparison_for(a.type_kind(ctx), pred)
            } else {
                None
            }),
    {
        let at = a.get_type(ctx);
        let bt = b.get_type(ctx);
        if at == bt {
            select_comparison(at.kind(ctx), pred)
        } else {
            None
        }
    }

    /// Chooses the family of an arithmetic instruction by the type of its
    /// left operand: the integer one for an integer, else the floating-point
    /// one.
    pub fn arithmetic_for(&self, ctx: &Context, left: &Value) -> (family: Arithmetic)
        requires
            ctx.wf(),
            left.valid(ctx),
        ensures
            family == (if left.type_kind(ctx) == TypeKind::Integer {
                Arithmetic::Int
            } else {
                Arithmetic::Real
            }),
    {
        let ty = left.get_type(ctx);
        if ty.is_integer(ctx) {
            Arithmetic::Int
        } else {
            Arithmetic::Real
        }
    }
}

} // verus!
