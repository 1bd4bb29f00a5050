//! What reduction means.
//!
//! [`reduce`] gives the value of a formula against a subject as a function on
//! trees. Two things bound it that the notional machine leaves open: atoms
//! are machine words, so an increment past the largest word fails, and
//! reductions may nest only as deeply as the fuel handed in, so every
//! reduction ends.
//!
//! Truth values follow one convention throughout: 0 is yes, 1 is no.

use crate::error::NockError;
use crate::noun::Tree;
use crate::path::{read, replace};
use vstd::prelude::*;

verus! {

/// The atom that answers yes.
pub const YES: u64 = 0;

/// The atom that answers no.
pub const NAH: u64 = 1;

/// Opcode of address: read the subject at a path.
pub const OP_ADDR: u64 = 0;

/// Opcode of quote: the operand itself.
pub const OP_IDTY: u64 = 1;

/// Opcode of eval: reduce a computed formula against a computed subject.
pub const OP_EVAL: u64 = 2;

/// Opcode of is-cell.
pub const OP_CELL: u64 = 3;

/// Opcode of increment.
pub const OP_INCR: u64 = 4;

/// Opcode of deep-equal.
pub const OP_EQAL: u64 = 5;

/// Opcode of branch.
pub const OP_BRCH: u64 = 6;

/// Opcode of compose.
pub const OP_CMPS: u64 = 7;

/// Opcode of extend.
pub const OP_EXTN: u64 = 8;

/// Opcode of invoke.
pub const OP_INVK: u64 = 9;

/// Opcode of edit.
pub const OP_RPLC: u64 = 10;

/// Opcode of hint.
pub const OP_HINT: u64 = 11;

/// The number of nested reductions that a budget of `fuel` pays for.
pub open spec fn depth(fuel: u64) -> nat {
    fuel as nat
}

/// The atom that stands for a truth value.
pub open spec fn flag(yes: bool) -> Tree {
    Tree::Atom(
        if yes {
            YES as nat
        } else {
            NAH as nat
        },
    )
}

/// The formula `(op . operand)`.
pub open spec fn formula(op: u64, operand: Tree) -> Tree {
    Tree::pair(Tree::Atom(op as nat), operand)
}

/// The value of `form` against `subj`, with `fuel` levels of nesting to spend.
///
/// A formula is a cell. Where its head is itself a cell, head and tail are
/// two formulas, and the result is the pair of their values. Where its head
/// is an atom, that atom selects the operator and the tail is its operand.
pub open spec fn reduce(subj: Tree, form: Tree, fuel: nat) -> Result<Tree, NockError>
    decreases fuel, 0nat,
{
    if fuel == 0 {
        Err(NockError::OutOfFuel)
    } else {
        match form {
            Tree::Atom(_) => Err(NockError::MalformedFormula),
            Tree::Cell(head, tail) => match *head {
                Tree::Cell(_, _) => distribute(subj, *head, *tail, (fuel - 1) as nat),
                Tree::Atom(op) => apply(op, subj, *tail, (fuel - 1) as nat),
            },
        }
    }
}

/// The value of the pair `(subject . formula)`.
pub open spec fn reduce_pair(noun: Tree, fuel: nat) -> Result<Tree, NockError> {
    match noun {
        Tree::Atom(_) => Err(NockError::NotACell),
        Tree::Cell(subj, form) => reduce(*subj, *form, fuel),
    }
}

/// A formula whose head is a cell: both halves are reduced against the same
/// subject, the head first, and the results paired.
pub open spec fn distribute(subj: Tree, first: Tree, second: Tree, fuel: nat) -> Result<
    Tree,
    NockError,
>
    decreases fuel, 1nat,
{
    match reduce(subj, first, fuel) {
        Err(e) => Err(e),
        Ok(head) => match reduce(subj, second, fuel) {
            Err(e) => Err(e),
            Ok(tail) => Ok(Tree::pair(head, tail)),
        },
    }
}

/// The operator that `op` selects, applied to `operand`.
pub open spec fn apply(op: nat, subj: Tree, operand: Tree, fuel: nat) -> Result<Tree, NockError>
    decreases fuel, 2nat,
{
    if op == OP_ADDR {
        address(subj, operand)
    } else if op == OP_IDTY {
        Ok(operand)
    } else if op == OP_EVAL {
        evaluate(subj, operand, fuel)
    } else if op == OP_CELL {
        test_cell(subj, operand, fuel)
    } else if op == OP_INCR {
        increment(subj, operand, fuel)
    } else if op == OP_EQAL {
        deep_equal(subj, operand, fuel)
    } else if op == OP_BRCH {
        branch(subj, operand, fuel)
    } else if op == OP_CMPS {
        compose(subj, operand, fuel)
    } else if op == OP_EXTN {
        extend(subj, operand, fuel)
    } else if op == OP_INVK {
        invoke(subj, operand, fuel)
    } else if op == OP_RPLC {
        edit(subj, operand, fuel)
    } else if op == OP_HINT {
        hinted(subj, operand, fuel)
    } else {
        Err(NockError::UnsupportedOpcode)
    }
}

/// Address: the operand is a path into the subject.
pub open spec fn address(subj: Tree, operand: Tree) -> Result<Tree, NockError> {
    match operand {
        Tree::Atom(path) => read(path, subj),
        Tree::Cell(_, _) => Err(NockError::MalformedFormula),
    }
}

/// Eval: the operand is `(b . c)`. Both are reduced against the subject; the
/// value of `b` is then the subject, and the value of `c` the formula, of one
/// more reduction.
pub open spec fn evaluate(subj: Tree, operand: Tree, fuel: nat) -> Result<Tree, NockError>
    decreases fuel, 1nat,
{
    match operand {
        Tree::Atom(_) => Err(NockError::MalformedFormula),
        Tree::Cell(b, c) => match reduce(subj, *b, fuel) {
            Err(e) => Err(e),
            Ok(new_subj) => match reduce(subj, *c, fuel) {
                Err(e) => Err(e),
                Ok(new_form) => reduce(new_subj, new_form, fuel),
            },
        },
    }
}

/// Is-cell: yes where the value of the operand is a cell.
pub open spec fn test_cell(subj: Tree, operand: Tree, fuel: nat) -> Result<Tree, NockError>
    decreases fuel, 1nat,
{
    match reduce(subj, operand, fuel) {
        Err(e) => Err(e),
        Ok(value) => Ok(flag(value is Cell)),
    }
}

/// Increment: the value of the operand, which must be an atom, plus one.
pub open spec fn increment(subj: Tree, operand: Tree, fuel: nat) -> Result<Tree, NockError>
    decreases fuel, 1nat,
{
    match reduce(subj, operand, fuel) {
        Err(e) => Err(e),
        Ok(Tree::Cell(_, _)) => Err(NockError::NotAnAtom),
        Ok(Tree::Atom(n)) => if n < u64::MAX {
            Ok(Tree::Atom(n + 1))
        } else {
            Err(NockError::AtomOverflow)
        },
    }
}

/// Deep-equal: the operand is `(b . c)`; yes where both have the same value.
pub open spec fn deep_equal(subj: Tree, operand: Tree, fuel: nat) -> Result<Tree, NockError>
    decreases fuel, 1nat,
{
    match operand {
        Tree::Atom(_) => Err(NockError::MalformedFormula),
        Tree::Cell(b, c) => match reduce(subj, *b, fuel) {
            Err(e) => Err(e),
            Ok(left) => match reduce(subj, *c, fuel) {
                Err(e) => Err(e),
                Ok(right) => Ok(flag(left == right)),
            },
        },
    }
}

/// Branch: the operand is `(b . (c . d))`.
///
/// The machine defines it by the operators below it. The value of `b` is
/// incremented twice, which takes yes to 2 and no to 3; that number is read
/// as a path into `(2 . 3)` and what is found as a path into `(c . d)`; the
/// formula found there is reduced against the subject.
pub open spec fn branch(subj: Tree, operand: Tree, fuel: nat) -> Result<Tree, NockError>
    decreases fuel, 1nat,
{
    match operand {
        Tree::Cell(b, cd) => match *cd {
            Tree::Cell(c, d) => {
                match reduce(subj, formula(OP_INCR, formula(OP_INCR, *b)), fuel) {
                    Err(e) => Err(e),
                    Ok(bumped) => match reduce(
                        Tree::pair(Tree::Atom(2), Tree::Atom(3)),
                        formula(OP_ADDR, bumped),
                        fuel,
                    ) {
                        Err(e) => Err(e),
                        Ok(side) => match reduce(Tree::pair(*c, *d), formula(OP_ADDR, side), fuel) {
                            Err(e) => Err(e),
                            Ok(chosen) => reduce(subj, chosen, fuel),
                        },
                    },
                }
            },
            Tree::Atom(_) => Err(NockError::MalformedFormula),
        },
        Tree::Atom(_) => Err(NockError::MalformedFormula),
    }
}

/// Compose: the operand is `(b . c)`; `c` is reduced against the value of `b`.
pub open spec fn compose(subj: Tree, operand: Tree, fuel: nat) -> Result<Tree, NockError>
    decreases fuel, 1nat,
{
    match operand {
        Tree::Atom(_) => Err(NockError::MalformedFormula),
        Tree::Cell(b, c) => match reduce(subj, *b, fuel) {
            Err(e) => Err(e),
            Ok(new_subj) => reduce(new_subj, *c, fuel),
        },
    }
}

/// Extend: the operand is `(b . c)`; `c` is reduced against the subject with
/// the value of `b` put in front of it.
pub open spec fn extend(subj: Tree, operand: Tree, fuel: nat) -> Result<Tree, NockError>
    decreases fuel, 1nat,
{
    match operand {
        Tree::Atom(_) => Err(NockError::MalformedFormula),
        Tree::Cell(b, c) => match reduce(subj, *b, fuel) {
            Err(e) => Err(e),
            Ok(pushed) => reduce(Tree::pair(pushed, subj), *c, fuel),
        },
    }
}

/// The formula that calls the arm at path `arm` of whatever core it is
/// reduced against: an eval whose new subject is the core itself.
pub open spec fn call_arm(arm: Tree) -> Tree {
    formula(
        OP_EVAL,
        Tree::pair(formula(OP_ADDR, Tree::Atom(1)), formula(OP_ADDR, arm)),
    )
}

/// Invoke: the operand is `(b . c)`. The value of `c` is a core; the machine
/// defines the result as that core reduced against [`call_arm`] of `b`.
pub open spec fn invoke(subj: Tree, operand: Tree, fuel: nat) -> Result<Tree, NockError>
    decreases fuel, 1nat,
{
    match operand {
        Tree::Atom(_) => Err(NockError::MalformedFormula),
        Tree::Cell(b, c) => match reduce(subj, *c, fuel) {
            Err(e) => Err(e),
            Ok(core) => reduce(core, call_arm(*b), fuel),
        },
    }
}

/// Edit: the operand is `((b . c) . d)` with `b` a literal path. The node at
/// `b` of the value of `d` is replaced by the value of `c`.
pub open spec fn edit(subj: Tree, operand: Tree, fuel: nat) -> Result<Tree, NockError>
    decreases fuel, 1nat,
{
    match operand {
        Tree::Cell(bc, d) => match *bc {
            Tree::Cell(b, c) => match *b {
                Tree::Atom(path) => match reduce(subj, *c, fuel) {
                    Err(e) => Err(e),
                    Ok(value) => match reduce(subj, *d, fuel) {
                        Err(e) => Err(e),
                        Ok(target) => replace(path, value, target),
                    },
                },
                Tree::Cell(_, _) => Err(NockError::MalformedFormula),
            },
            Tree::Atom(_) => Err(NockError::MalformedFormula),
        },
        Tree::Atom(_) => Err(NockError::MalformedFormula),
    }
}

/// Hint: the operand is `(advice . f)`. The advice is dropped unread and the
/// result is the value of `f`.
pub open spec fn hinted(subj: Tree, operand: Tree, fuel: nat) -> Result<Tree, NockError>
    decreases fuel, 1nat,
{
    match operand {
        Tree::Atom(_) => Err(NockError::MalformedFormula),
        Tree::Cell(_, f) => reduce(subj, *f, fuel),
    }
}

} // verus!
