//! The ways in which a reduction can fail.

use crate::noun::{Noun, Tree};
use vstd::prelude::*;

verus! {

/// Why a read, an edit or a reduction produced no noun.
///
/// A failure ends the whole reduction at once: no default is substituted and
/// no partial noun is returned.
#[derive(Clone, Copy, Debug, PartialEq, Eq, Structural)]
pub enum NockError {
    /// The path is zero, which addresses nothing.
    InvalidAddress,
    /// A step needed a cell and found an atom.
    NotACell,
    /// A formula, or the operand of an operator, has the wrong shape.
    MalformedFormula,
    /// Increment was applied to a cell.
    NotAnAtom,
    /// The opcode is none of the twelve operators.
    UnsupportedOpcode,
    /// An increment would leave the range of a machine word.
    AtomOverflow,
    /// Reductions were nested more deeply than the budget allows.
    OutOfFuel,
}

/// What a fallible result denotes: the tree of the noun, or the error.
pub open spec fn outcome(result: Result<Noun, NockError>) -> Result<Tree, NockError> {
    match result {
        Ok(noun) => Ok(noun@),
        Err(e) => Err(e),
    }
}

} // verus!
