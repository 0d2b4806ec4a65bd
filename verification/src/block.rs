//! Basic blocks and the iterator over a function's blocks.

use vstd::prelude::*;
use crate::context::{Context, GetContext};
use crate::value::{Function, Value, ValueKind};
use crate::util::{NativeRef, Sub};

verus! {

/// A container of instructions that execute sequentially.
#[derive(Clone, Copy, Debug, PartialEq, Eq, Structural)]
pub struct BasicBlock {
    /// The raw handle.
    pub raw: usize,
}

impl NativeRef for BasicBlock {
    open spec fn raw_spec(&self) -> usize {
        self.raw
    }

    open spec fn project(raw: usize) -> Self {
        BasicBlock { raw }
    }

    fn from_raw(raw: usize) -> (r: Self) {
        BasicBlock { raw }
    }

    fn as_raw(&self) -> (raw: usize) {
        self.raw
    }

    proof fn raw_round_trip(raw: usize) {
    }

    proof fn ref_round_trip(r: Self) {
    }
}

impl Sub<Value> for BasicBlock {
    open spec fn known(ctx: &Context, c: &Value) -> bool {
        ctx.value_known(c.raw)
    }

    open spec fn is_spec(ctx: &Context, c: &Value) -> bool {
        ctx.values[c.raw as int].kind == ValueKind::BasicBlock
    }

    open spec fn narrow(c: &Value) -> Self {
        BasicBlock { raw: c.raw }
    }

    open spec fn widen(&self) -> Value {
        Value { raw: self.raw }
    }

    fn is(ctx: &Context, c: &Value) -> (b: bool) {
        ctx.values[c.raw].kind == ValueKind::BasicBlock
    }

    fn from_super(ctx: &Context, c: &Value) -> (r: Option<Self>) {
        if Self::is(ctx, c) {
            Some(BasicBlock { raw: c.raw })
        } else {
            None
        }
    }

    fn to_super(&self) -> (r: Value) {
        Value { raw: self.raw }
    }

    proof fn widen_narrow(c: &Value) {
    }

    proof fn narrow_widen(s: &Self) {
    }
}

impl BasicBlock {
    /// Whether this handle names a block of `ctx`.
    pub open spec fn valid(&self, ctx: &Context) -> bool {
        ctx.value_known(self.raw) && ctx.values[self.raw as int].kind == ValueKind::BasicBlock
    }
}

/// The blocks that a list of raw handles stands for.
pub open spec fn blocks_of(raws: Seq<usize>) -> Seq<BasicBlock> {
    Seq::new(raws.len(), |i: int| BasicBlock { raw: raws[i] })
}

/// Iterates through the blocks contained in a function, from either end.
///
/// The blocks that are still to come are those at the places from `min` up
/// to, and not including, `max`. Each block is handed out once, whichever
/// ends the calls take it from.
pub struct BlockIter {
    /// The function's blocks, in order, as they were when the iterator was made.
    pub blocks: Vec<BasicBlock>,
    /// The place of the next block from the front.
    pub min: usize,
    /// One more than the place of the next block from the back.
    pub max: usize,
}

impl BlockIter {
    /// The iterator's invariant: the two ends are in order and in range.
    pub open spec fn wf(&self) -> bool {
        self.min <= self.max <= self.blocks.len()
    }

    /// The blocks that are still to come, in function order.
    pub open spec fn remaining(&self) -> Seq<BasicBlock> {
        self.blocks@.subrange(self.min as int, self.max as int)
    }

    /// Makes the iterator over the blocks of `function`.
    pub fn new(ctx: &Context, function: &Function) -> (iter: BlockIter)
        requires
            ctx.wf(),
            function.valid(ctx),
        ensures
            iter.wf(),
            iter.blocks@ == blocks_of(ctx.values[function.raw as int].blocks@),
            iter.min == 0,
            iter.max == iter.blocks.len(),
            iter.remaining() == blocks_of(ctx.values[function.raw as int].blocks@),
    {
        let raws = &ctx.values[function.raw].blocks;
        let mut blocks: Vec<BasicBlock> = Vec::new();
        let mut i: usize = 0;
        while i < raws.len()
            invariant
                i <= raws.len(),
                blocks@ == blocks_of(raws@.subrange(0, i as int)),
            decreases raws.len() - i,
        {
            blocks.push(BasicBlock { raw: raws[i] });
            i += 1;
            assert(blocks@ =~= blocks_of(raws@.subrange(0, i as int)));
        }
        assert(raws@.subrange(0, i as int) =~= raws@);
        let max = blocks.len();
        assert(blocks@.subrange(0, max as int) =~= blocks@);
        BlockIter { blocks, min: 0, max }
    }

    /// Hands out the first of the blocks that are still to come, or returns
    /// `None` when none is left.
    pub fn next(&mut self) -> (block: Option<BasicBlock>)
        requires
            old(self).wf(),
        ensures
            final(self).wf(),
            final(self).blocks == old(self).blocks,
            final(self).max == old(self).max,
            old(self).remaining().len() == 0 ==> block.is_none() && final(self).min == old(
                self,
            ).min,
            old(self).remaining().len() > 0 ==> block == Some(old(self).remaining().first())
                && final(self).min == old(self).min + 1 && final(self).remaining() == old(
                self,
            ).remaining().drop_first(),
    {
        if self.min < self.max {
            let block = self.blocks[self.min];
            self.min = self.min + 1;
            assert(self.remaining() =~= old(self).remaining().drop_first());
            Some(block)
        } else {
            None
        }
    }

    /// Hands out the last of the blocks that are still to come, or returns
    /// `None` when none is left.
    pub fn next_back(&mut self) -> (block: Option<BasicBlock>)
        requires
            old(self).wf(),
        ensures
            final(self).wf(),
            final(self).blocks == old(self).blocks,
            final(self).min == old(self).min,
            old(self).remaining().len() == 0 ==> block.is_none() && final(self).max == old(
                self,
            ).max,
            old(self).remaining().len() > 0 ==> block == Some(old(self).remaining().last())
                && final(self).max == old(self).max - 1 && final(self).remaining() == old(
                self,
            ).remaining().drop_last(),
    {
        if self.min < self.max {
            self.max = self.max - 1;
            let block = self.blocks[self.max];
            assert(self.remaining() =~= old(self).remaining().drop_last());
            Some(block)
        } else {
            None
        }
    }
}

/// A PHI node represents a value which is selected based on the predecessor of the current block.
#[derive(Clone, Copy, Debug, PartialEq, Eq, Structural)]
pub struct PhiNode {
    /// The raw handle.
    pub raw: usize,
}

impl NativeRef for PhiNode {
    open spec fn raw_spec(&self) -> usize {
        self.raw
    }

    open spec fn project(raw: usize) -> Self {
        PhiNode { raw }
    }

    fn from_raw(raw: usize) -> (r: Self) {
        PhiNode { raw }
    }

    fn as_raw(&self) -> (raw: usize) {
        self.raw
    }

    proof fn raw_round_trip(raw: usize) {
    }

    proof fn ref_round_trip(r: Self) {
    }
}

impl Sub<Value> for PhiNode {
    open spec fn known(ctx: &Context, c: &Value) -> bool {
        ctx.value_known(c.raw)
    }

    open spec fn is_spec(ctx: &Context, c: &Value) -> bool {
        ctx.values[c.raw as int].kind == ValueKind::Phi
    }

    open spec fn narrow(c: &Value) -> Self {
        PhiNode { raw: c.raw }
    }

    open spec fn widen(&self) -> Value {
        Value { raw: self.raw }
    }

    fn is(ctx: &Context, c: &Value) -> (b: bool) {
        ctx.values[c.raw].kind == ValueKind::Phi
    }

    fn from_super(ctx: &Context, c: &Value) -> (r: Option<Self>) {
        if Self::is(ctx, c) {
            Some(PhiNode { raw: c.raw })
        } else {
            None
        }
    }

    fn to_super(&self) -> (r: Value) {
        Value { raw: self.raw }
    }

    proof fn widen_narrow(c: &Value) {
    }

    proof fn narrow_widen(s: &Self) {
    }
}

impl GetContext for BasicBlock {
    open spec fn valid_in(&self, ctx: &Context) -> bool {
        self.valid(ctx)
    }

    fn get_context<'a>(&self, ctx: &'a Context) -> (found: Option<&'a Context>) {
        if 0 < self.raw && self.raw < ctx.values.len() && ctx.values[self.raw].kind == ValueKind::BasicBlock {
            Some(ctx)
        } else {
            None
        }
    }
}

impl PhiNode {
    /// Whether this handle names a PHI node of `ctx`.
    pub open spec fn valid(&self, ctx: &Context) -> bool {
        ctx.value_known(self.raw) && ctx.values[self.raw as int].kind == ValueKind::Phi
    }
}

impl GetContext for PhiNode {
    open spec fn valid_in(&self, ctx: &Context) -> bool {
        self.valid(ctx)
    }

    fn get_context<'a>(&self, ctx: &'a Context) -> (found: Option<&'a Context>) {
        if 0 < self.raw && self.raw < ctx.values.len() && ctx.values[self.raw].kind == ValueKind::Phi {
            Some(ctx)
        } else {
            None
        }
    }
}

} // verus!
