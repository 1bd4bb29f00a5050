//! The reduction engine.
//!
//! [`nock`] reduces a `(subject . formula)` pair to a noun, and is the only
//! function here that looks at the formula's head. Each operator has a
//! function of its own, which takes the subject and the operand and calls
//! back into [`nock`] for the formulas inside the operand.
//!
//! Every function returns exactly what [`crate::semantics`] says: the noun, or
//! the error that ended the reduction. `fuel` bounds how deeply reductions may
//! nest, and so how deep the call stack gets.

use crate::equality::noun_eq;
use crate::error::{outcome, NockError};
use crate::noun::{Atom, Noun, NounInner};
use crate::path::{read_at, rplc_at};
use crate::semantics::{
    address, branch, compose, deep_equal, depth, edit, evaluate, extend, hinted, increment,
    invoke, reduce_pair, test_cell, NAH, OP_ADDR, OP_BRCH, OP_CELL, OP_CMPS, OP_EQAL, OP_EVAL,
    OP_EXTN, OP_HINT, OP_IDTY, OP_INCR, OP_INVK, OP_RPLC, YES,
};
use vstd::prelude::*;

verus! {

/// Reduces `noun`, which must be the pair `(subject . formula)`.
pub fn nock(noun: Noun, fuel: u64) -> (product: Result<Noun, NockError>)
    ensures
        outcome(product) == reduce_pair(noun@, depth(fuel)),
    decreases fuel, 0nat,
{
    let (subj, form) = match &*noun.0 {
        NounInner::Cell(pair) => (&pair.0, &pair.1),
        NounInner::Atom(_) => {
            return Err(NockError::NotACell);
        },
    };
    if fuel == 0 {
        return Err(NockError::OutOfFuel);
    }
    let rest: u64 = fuel - 1;
    assert(form@ == (*form.0)@);
    let (inst, b) = match &*form.0 {
        NounInner::Cell(pair) => (&pair.0, &pair.1),
        NounInner::Atom(_) => {
            return Err(NockError::MalformedFormula);
        },
    };
    assert(inst@ == (*inst.0)@);
    let op: u64 = match &*inst.0 {
        NounInner::Atom(op) => op.0,
        NounInner::Cell(_) => {
            let head = match nock(Noun::cell(subj.clone(), inst.clone()), rest) {
                Ok(head) => head,
                Err(e) => {
                    return Err(e);
                },
            };
            let tail = match nock(Noun::cell(subj.clone(), b.clone()), rest) {
                Ok(tail) => tail,
                Err(e) => {
                    return Err(e);
                },
            };
            return Ok(Noun::cell(head, tail));
        },
    };
    if op == OP_ADDR {
        addr(subj, b.clone())
    } else if op == OP_IDTY {
        Ok(idty(b.clone()))
    } else if op == OP_EVAL {
        eval(subj.clone(), b.clone(), rest)
    } else if op == OP_CELL {
        cell(subj.clone(), b.clone(), rest)
    } else if op == OP_INCR {
        incr(subj.clone(), b.clone(), rest)
    } else if op == OP_EQAL {
        eqal(subj.clone(), b.clone(), rest)
    } else if op == OP_BRCH {
        brch(subj.clone(), b.clone(), rest)
    } else if op == OP_CMPS {
        cmps(subj.clone(), b.clone(), rest)
    } else if op == OP_EXTN {
        extn(subj.clone(), b.clone(), rest)
    } else if op == OP_INVK {
        invk(subj.clone(), b.clone(), rest)
    } else if op == OP_RPLC {
        rplc(subj.clone(), b.clone(), rest)
    } else if op == OP_HINT {
        hint(subj.clone(), b.clone(), rest)
    } else {
        Err(NockError::UnsupportedOpcode)
    }
}

/// Address: the node of `subj` at the path that the atom `path` holds.
pub fn addr(subj: &Noun, path: Noun) -> (product: Result<Noun, NockError>)
    ensures
        outcome(product) == address(subj@, path@),
{
    match &*path.0 {
        NounInner::Atom(atom) => read_at(atom.0, subj),
        NounInner::Cell(_) => Err(NockError::MalformedFormula),
    }
}

/// Quote: the operand itself, unevaluated.
pub fn idty(noun: Noun) -> (product: Noun)
    ensures
        product == noun,
{
    noun
}

/// Eval: reduces both halves of `form` against `subj`, then the first result
/// against the second.
pub fn eval(subj: Noun, form: Noun, fuel: u64) -> (product: Result<Noun, NockError>)
    ensures
        outcome(product) == evaluate(subj@, form@, depth(fuel)),
    decreases fuel, 1nat,
{
    let (b, c) = match &*form.0 {
        NounInner::Cell(pair) => (pair.0.clone(), pair.1.clone()),
        NounInner::Atom(_) => {
            return Err(NockError::MalformedFormula);
        },
    };
    let evaled_b = match nock(Noun::cell(subj.clone(), b), fuel) {
        Ok(noun) => noun,
        Err(e) => {
            return Err(e);
        },
    };
    let evaled_c = match nock(Noun::cell(subj, c), fuel) {
        Ok(noun) => noun,
        Err(e) => {
            return Err(e);
        },
    };
    nock(Noun::cell(evaled_b, evaled_c), fuel)
}

/// Is-cell: yes where `form` reduces to a cell, no where to an atom.
pub fn cell(subj: Noun, form: Noun, fuel: u64) -> (product: Result<Noun, NockError>)
    ensures
        outcome(product) == test_cell(subj@, form@, depth(fuel)),
    decreases fuel, 1nat,
{
    match nock(Noun::cell(subj, form), fuel) {
        Ok(prod) => Ok(
            Noun::atom(
                Atom(
                    if prod.is_cell() {
                        YES
                    } else {
                        NAH
                    },
                ),
            ),
        ),
        Err(e) => Err(e),
    }
}

/// Increment: one more than the atom that `form` reduces to.
pub fn incr(subj: Noun, form: Noun, fuel: u64) -> (product: Result<Noun, NockError>)
    ensures
        outcome(product) == increment(subj@, form@, depth(fuel)),
    decreases fuel, 1nat,
{
    let prod = match nock(Noun::cell(subj, form), fuel) {
        Ok(noun) => noun,
        Err(e) => {
            return Err(e);
        },
    };
    match &*prod.0 {
        NounInner::Atom(atom) => match Atom::incr(*atom) {
            Some(next) => Ok(Noun::atom(next)),
            None => Err(NockError::AtomOverflow),
        },
        NounInner::Cell(_) => Err(NockError::NotAnAtom),
    }
}

/// Deep-equal: yes where both halves of `form` reduce to the same tree.
pub fn eqal(subj: Noun, form: Noun, fuel: u64) -> (product: Result<Noun, NockError>)
    ensures
        outcome(product) == deep_equal(subj@, form@, depth(fuel)),
    decreases fuel, 1nat,
{
    let (b, c) = match &*form.0 {
        NounInner::Cell(pair) => (pair.0.clone(), pair.1.clone()),
        NounInner::Atom(_) => {
            return Err(NockError::MalformedFormula);
        },
    };
    let evaled_b = match nock(Noun::cell(subj.clone(), b), fuel) {
        Ok(noun) => noun,
        Err(e) => {
            return Err(e);
        },
    };
    let evaled_c = match nock(Noun::cell(subj, c), fuel) {
        Ok(noun) => noun,
        Err(e) => {
            return Err(e);
        },
    };
    Ok(
        Noun::atom(
            Atom(
                if noun_eq(evaled_b, evaled_c) {
                    YES
                } else {
                    NAH
                },
            ),
        ),
    )
}

/// Branch, by the machine's own definition: the test's result, incremented
/// twice, addresses `(2 . 3)`; what is found addresses the two arms; the arm
/// found is reduced against `subj`.
pub fn brch(subj: Noun, form: Noun, fuel: u64) -> (product: Result<Noun, NockError>)
    ensures
        outcome(product) == branch(subj@, form@, depth(fuel)),
    decreases fuel, 1nat,
{
    let (b, cd) = match &*form.0 {
        NounInner::Cell(pair) => (&pair.0, &pair.1),
        NounInner::Atom(_) => {
            return Err(NockError::MalformedFormula);
        },
    };
    assert(cd@ == (*cd.0)@);
    let (c, d) = match &*cd.0 {
        NounInner::Cell(pair) => (&pair.0, &pair.1),
        NounInner::Atom(_) => {
            return Err(NockError::MalformedFormula);
        },
    };
    let brch_addr = Noun::cell(Noun::atom(Atom(2)), Noun::atom(Atom(3)));
    let cond = Noun::cell(
        subj.clone(),
        Noun::cell(
            Noun::atom(Atom(OP_INCR)),
            Noun::cell(Noun::atom(Atom(OP_INCR)), b.clone()),
        ),
    );
    let evaled_cond = match nock(cond, fuel) {
        Ok(noun) => noun,
        Err(e) => {
            return Err(e);
        },
    };
    let addr_ = match nock(
        Noun::cell(brch_addr, Noun::cell(Noun::atom(Atom(OP_ADDR)), evaled_cond)),
        fuel,
    ) {
        Ok(noun) => noun,
        Err(e) => {
            return Err(e);
        },
    };
    let then_else = Noun::cell(c.clone(), d.clone());
    let chosen = match nock(
        Noun::cell(then_else, Noun::cell(Noun::atom(Atom(OP_ADDR)), addr_)),
        fuel,
    ) {
        Ok(noun) => noun,
        Err(e) => {
            return Err(e);
        },
    };
    nock(Noun::cell(subj, chosen), fuel)
}

/// Compose: reduces the second half of `form` against the value of the first.
pub fn cmps(subj: Noun, form: Noun, fuel: u64) -> (product: Result<Noun, NockError>)
    ensures
        outcome(product) == compose(subj@, form@, depth(fuel)),
    decreases fuel, 1nat,
{
    let (b, c) = match &*form.0 {
        NounInner::Cell(pair) => (pair.0.clone(), pair.1.clone()),
        NounInner::Atom(_) => {
            return Err(NockError::MalformedFormula);
        },
    };
    let evaled_b = match nock(Noun::cell(subj, b), fuel) {
        Ok(noun) => noun,
        Err(e) => {
            return Err(e);
        },
    };
    nock(Noun::cell(evaled_b, c), fuel)
}

/// Extend: reduces the second half of `form` against `subj` with the value
/// of the first half put in front of it.
pub fn extn(subj: Noun, form: Noun, fuel: u64) -> (product: Result<Noun, NockError>)
    ensures
        outcome(product) == extend(subj@, form@, depth(fuel)),
    decreases fuel, 1nat,
{
    let (b, c) = match &*form.0 {
        NounInner::Cell(pair) => (pair.0.clone(), pair.1.clone()),
        NounInner::Atom(_) => {
            return Err(NockError::MalformedFormula);
        },
    };
    let evaled_b = match nock(Noun::cell(subj.clone(), b), fuel) {
        Ok(noun) => noun,
        Err(e) => {
            return Err(e);
        },
    };
    let new_subj = Noun::cell(evaled_b, subj);
    nock(Noun::cell(new_subj, c), fuel)
}

/// Invoke, by the machine's own definition: the second half of `form` reduces
/// to a core, which is then reduced against an eval of itself and of its arm
/// at the path that the first half gives.
pub fn invk(subj: Noun, form: Noun, fuel: u64) -> (product: Result<Noun, NockError>)
    ensures
        outcome(product) == invoke(subj@, form@, depth(fuel)),
    decreases fuel, 1nat,
{
    let (b, c) = match &*form.0 {
        NounInner::Cell(pair) => (pair.0.clone(), pair.1.clone()),
        NounInner::Atom(_) => {
            return Err(NockError::MalformedFormula);
        },
    };
    let core = match nock(Noun::cell(subj, c), fuel) {
        Ok(noun) => noun,
        Err(e) => {
            return Err(e);
        },
    };
    let eval = Noun::cell(
        Noun::atom(Atom(OP_EVAL)),
        Noun::cell(
            Noun::cell(Noun::atom(Atom(OP_ADDR)), Noun::atom(Atom(1))),
            Noun::cell(Noun::atom(Atom(OP_ADDR)), b),
        ),
    );
    nock(Noun::cell(core, eval), fuel)
}

/// Edit: `form` is `((b . c) . d)`; the node at the literal path `b` of the
/// value of `d` is replaced by the value of `c`.
pub fn rplc(subj: Noun, form: Noun, fuel: u64) -> (product: Result<Noun, NockError>)
    ensures
        outcome(product) == edit(subj@, form@, depth(fuel)),
    decreases fuel, 1nat,
{
    let (bc, d) = match &*form.0 {
        NounInner::Cell(pair) => (&pair.0, pair.1.clone()),
        NounInner::Atom(_) => {
            return Err(NockError::MalformedFormula);
        },
    };
    assert(bc@ == (*bc.0)@);
    let (b, c) = match &*bc.0 {
        NounInner::Cell(pair) => (&pair.0, pair.1.clone()),
        NounInner::Atom(_) => {
            return Err(NockError::MalformedFormula);
        },
    };
    assert(b@ == (*b.0)@);
    let path: u64 = match &*b.0 {
        NounInner::Atom(atom) => atom.0,
        NounInner::Cell(_) => {
            return Err(NockError::MalformedFormula);
        },
    };
    let evaled_c = match nock(Noun::cell(subj.clone(), c), fuel) {
        Ok(noun) => noun,
        Err(e) => {
            return Err(e);
        },
    };
    let evaled_d = match nock(Noun::cell(subj, d), fuel) {
        Ok(noun) => noun,
        Err(e) => {
            return Err(e);
        },
    };
    rplc_at(path, evaled_c, &evaled_d)
}

/// Hint: `form` is `(advice . f)`; the advice is dropped and `f` reduced.
pub fn hint(subj: Noun, form: Noun, fuel: u64) -> (product: Result<Noun, NockError>)
    ensures
        outcome(product) == hinted(subj@, form@, depth(fuel)),
    decreases fuel, 1nat,
{
    let f = match &*form.0 {
        NounInner::Cell(pair) => pair.1.clone(),
        NounInner::Atom(_) => {
            return Err(NockError::MalformedFormula);
        },
    };
    nock(Noun::cell(subj, f), fuel)
}

} // verus!
