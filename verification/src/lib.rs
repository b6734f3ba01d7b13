//! An arena-based mid-level intermediate representation (MIR) for a compiler:
//! a block-structured instruction stream per function, the constant
//! sub-language, struct layout records, and the build-time block-state ledger
//! that enforces the legal construction order of blocks.

pub mod code;
pub mod hir;
pub mod mir;
pub mod ty;

pub use code::{Block, BlockId, Code, Op, OpId};
