//! Identifiers and tags owned by the high-level layers of the compiler.
//!
//! The MIR layer never looks inside these; they are opaque handles that it
//! stores and hands back to its collaborators.

use vstd::prelude::*;

verus! {

/// Identifies a struct declaration.
#[derive(Clone, Copy, Debug, PartialEq, Eq, Hash, Structural)]
pub struct StructId(pub u32);

/// Identifies a module scope.
#[derive(Clone, Copy, Debug, PartialEq, Eq, Hash, Structural)]
pub struct ModScopeId(pub u32);

/// Tags a builtin operation that the backend lowers directly.
#[derive(Clone, Copy, Debug, PartialEq, Eq, Hash, Structural)]
pub struct Intrinsic(pub u32);

} // verus!
