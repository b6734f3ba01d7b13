//! The type vocabulary that the MIR layer consumes from the front end.
//!
//! The MIR itself only distinguishes a handful of forms (`Bool`, `Ty`, `Mod`
//! and `Struct` appear in the typing of constants); the numeric and pointer
//! forms are carried through untouched.

use vstd::prelude::*;

use crate::hir::StructId;

verus! {

/// A source-level type as the front end hands it to the MIR layer.
#[derive(Debug, PartialEq, Eq)]
pub enum Type {
    /// The unit/no-value type; also the default return type of a function.
    Void,
    /// The boolean type.
    Bool,
    /// An integer type of the given bit width and signedness.
    Int { width: u32, is_signed: bool },
    /// A floating-point type of the given bit width.
    Float { width: u32 },
    /// A pointer to a value of the pointee type.
    Pointer { pointee: Box<Type>, is_mut: bool },
    /// The type of types themselves.
    Ty,
    /// The type of module-scope references.
    Mod,
    /// A nominal aggregate type.
    Struct(StructId),
}

impl Clone for Type {
    /// A deep copy: the clone equals the value it was cloned from.
    fn clone(&self) -> (res: Self)
        ensures
            res == *self,
        decreases self,
    {
        match self {
            Type::Void => Type::Void,
            Type::Bool => Type::Bool,
            Type::Int { width, is_signed } => Type::Int { width: *width, is_signed: *is_signed },
            Type::Float { width } => Type::Float { width: *width },
            Type::Pointer { pointee, is_mut } => Type::Pointer {
                pointee: Box::new((&**pointee).clone()),
                is_mut: *is_mut,
            },
            Type::Ty => Type::Ty,
            Type::Mod => Type::Mod,
            Type::Struct(id) => Type::Struct(*id),
        }
    }
}

} // verus!
