//! Targets and their data layouts.

use vstd::prelude::*;
use crate::util::NativeRef;

verus! {

/// The data layout of a target.
#[derive(Clone, Copy, Debug, PartialEq, Eq, Structural)]
pub struct TargetData {
    /// The raw handle.
    pub raw: usize,
}

impl NativeRef for TargetData {
    open spec fn raw_spec(&self) -> usize {
        self.raw
    }

    open spec fn project(raw: usize) -> Self {
        TargetData { raw }
    }

    fn from_raw(raw: usize) -> (r: Self) {
        TargetData { raw }
    }

    fn as_raw(&self) -> (raw: usize) {
        self.raw
    }

    proof fn raw_round_trip(raw: usize) {
    }

    proof fn ref_round_trip(r: Self) {
    }
}

impl TargetData {
    /// Returns true if the byte order that the native library reported is
    /// that of a big endian target.
    pub fn is_big_endian(order: u32) -> (b: bool)
        ensures
            b == (order == 0),
    {
        order == 0
    }
}

/// A target that code can be generated for.
#[derive(Clone, Copy, Debug, PartialEq, Eq, Structural)]
pub struct Target {
    /// The raw handle.
    pub raw: usize,
}

impl NativeRef for Target {
    open spec fn raw_spec(&self) -> usize {
        self.raw
    }

    open spec fn project(raw: usize) -> Self {
        Target { raw }
    }

    fn from_raw(raw: usize) -> (r: Self) {
        Target { raw }
    }

    fn as_raw(&self) -> (raw: usize) {
        self.raw
    }

    proof fn raw_round_trip(raw: usize) {
    }

    proof fn ref_round_trip(r: Self) {
    }
}

} // verus!
