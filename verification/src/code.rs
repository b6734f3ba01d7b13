//! The shared code arena that owns blocks.
//!
//! A block is an ordered list of operation slots. Each slot either refers to a
//! MIR instruction or holds some other kind of op; the MIR layer only ever
//! reads the former and treats the latter as an absence.

use vstd::prelude::*;

use crate::mir::{InstrId, MirCode};

verus! {

/// Identifies a block in the code arena.
#[derive(Clone, Copy, Debug, PartialEq, Eq, Hash, Structural)]
pub struct BlockId(pub u32);

impl BlockId {
    /// The dense index this identifier wraps.
    pub fn index(self) -> (r: usize)
        ensures
            r == self.0 as usize,
    {
        self.0 as usize
    }
}

/// Identifies an operation slot local to one block.
#[derive(Clone, Copy, Debug, PartialEq, Eq, Hash, Structural)]
pub struct OpId(pub usize);

impl OpId {
    /// Wraps a raw op index.
    pub fn new(index: usize) -> (r: OpId)
        ensures
            r.0 == index,
    {
        OpId(index)
    }
}

/// One operation slot of a block: either a reference into the MIR instruction
/// arena, or an op of some other kind that the MIR layer does not interpret.
#[derive(Clone, Copy, Debug, PartialEq, Eq, Structural)]
pub enum Op {
    MirInstr(InstrId),
    Other,
}

impl Op {
    /// The MIR instruction this slot refers to, if it refers to one.
    pub open spec fn spec_as_mir_instr(self) -> Option<InstrId> {
        match self {
            Op::MirInstr(id) => Some(id),
            Op::Other => None,
        }
    }

    /// Returns the MIR instruction id held by this slot, or `None` for any
    /// other kind of op.
    pub fn as_mir_instr(self) -> (r: Option<InstrId>)
        ensures
            r == self.spec_as_mir_instr(),
    {
        match self {
            Op::MirInstr(id) => Some(id),
            Op::Other => None,
        }
    }
}

/// An ordered sequence of operations; a well-formed block ends in a
/// terminator, which the emitter is responsible for.
pub struct Block {
    pub ops: Vec<Op>,
}

/// The shared code arena: the blocks of every function, plus the MIR arena
/// that the blocks' instruction slots point into.
pub struct Code {
    pub blocks: Vec<Block>,
    pub mir_code: MirCode,
}

impl Code {
    /// Appends a block and returns its identifier. Identifiers already handed
    /// out keep resolving to the records they named.
    pub fn add_block(&mut self, block: Block) -> (id: BlockId)
        requires
            old(self).blocks@.len() < 0x1_0000_0000,
        ensures
            final(self).blocks@ == old(self).blocks@.push(block),
            id.0 == old(self).blocks@.len(),
            final(self).mir_code == old(self).mir_code,
    {
        let id = BlockId(self.blocks.len() as u32);
        self.blocks.push(block);
        id
    }
}

} // verus!
