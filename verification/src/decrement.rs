//! A program worked through: decrement.
//!
//! The machine can add one but not take one away. The formula here finds the
//! predecessor of its subject by counting up to it. It puts a counter, and
//! then an arm, in front of the subject, which makes a core
//! `(arm . (counter . subject))`, and invokes the arm. The arm answers the
//! counter where the counter's successor is the subject, and otherwise
//! invokes itself on a core whose counter is one larger. Every operator that
//! is more than a primitive takes part in it.

use crate::error::NockError;
use crate::laws::{branch_is_direct, invoke_is_direct, quote_returns_operand};
use crate::noun::{Atom, Noun, Tree};
use crate::path::read;
use crate::semantics::{
    branch, flag, formula, invoke, reduce, OP_ADDR, OP_BRCH, OP_EQAL, OP_EXTN, OP_IDTY, OP_INCR,
    OP_INVK,
};
use vstd::prelude::*;

verus! {

/// The formula that reads the subject at `path`.
pub open spec fn at(path: nat) -> Tree {
    Tree::pair(Tree::Atom(OP_ADDR as nat), Tree::Atom(path))
}

/// Whether the successor of the counter is the number to decrement.
pub open spec fn counter_test() -> Tree {
    formula(OP_EQAL, Tree::pair(at(7), formula(OP_INCR, at(6))))
}

/// The core again, with its counter one larger.
pub open spec fn next_core() -> Tree {
    Tree::pair(at(2), Tree::pair(formula(OP_INCR, at(6)), at(7)))
}

/// The arm: answer the counter, or go round once more.
pub open spec fn arm() -> Tree {
    formula(
        OP_BRCH,
        Tree::pair(
            counter_test(),
            Tree::pair(at(6), formula(OP_INVK, Tree::pair(Tree::Atom(2), next_core()))),
        ),
    )
}

/// The core whose counter stands at `counter`, on the way to `n`.
pub open spec fn core_at(counter: nat, n: nat) -> Tree {
    Tree::pair(arm(), Tree::pair(Tree::Atom(counter), Tree::Atom(n)))
}

/// The whole formula: push a counter of 0, push the arm, invoke it.
pub open spec fn decrement_formula() -> Tree {
    formula(
        OP_EXTN,
        Tree::pair(
            formula(OP_IDTY, Tree::Atom(0)),
            formula(
                OP_EXTN,
                Tree::pair(
                    formula(OP_IDTY, arm()),
                    formula(OP_INVK, Tree::pair(Tree::Atom(2), at(1))),
                ),
            ),
        ),
    )
}

fn atom(n: u64) -> (noun: Noun)
    ensures
        noun@ == Tree::Atom(n as nat),
{
    Noun::atom(Atom(n))
}

fn address(path: u64) -> (noun: Noun)
    ensures
        noun@ == at(path as nat),
{
    Noun::cell(atom(OP_ADDR), atom(path))
}

fn op(code: u64, operand: Noun) -> (noun: Noun)
    ensures
        noun@ == formula(code, operand@),
{
    Noun::cell(atom(code), operand)
}

/// Builds the decrement formula.
pub fn decrement() -> (noun: Noun)
    ensures
        noun@ == decrement_formula(),
{
    let test = op(OP_EQAL, Noun::cell(address(7), op(OP_INCR, address(6))));
    let yes = address(6);
    let new_core = Noun::cell(address(2), Noun::cell(op(OP_INCR, address(6)), address(7)));
    let nah = op(OP_INVK, Noun::cell(atom(2), new_core));
    let arm = op(OP_BRCH, Noun::cell(test, Noun::cell(yes, nah)));
    op(
        OP_EXTN,
        Noun::cell(
            op(OP_IDTY, atom(0)),
            op(
                OP_EXTN,
                Noun::cell(op(OP_IDTY, arm), op(OP_INVK, Noun::cell(atom(2), address(1)))),
            ),
        ),
    )
}

proof fn address_reads(subj: Tree, path: nat, fuel: nat)
    requires
        fuel >= 1,
    ensures
        reduce(subj, at(path), fuel) == read(path, subj),
{
    reveal_with_fuel(reduce, 2);
}

proof fn successor_of_counter(counter: nat, n: nat, fuel: nat)
    requires
        counter < u64::MAX,
        fuel >= 2,
    ensures
        reduce(core_at(counter, n), formula(OP_INCR, at(6)), fuel) == Ok::<Tree, NockError>(
            Tree::Atom(counter + 1),
        ),
{
    reveal_with_fuel(reduce, 2);
    reveal_with_fuel(read, 3);
    address_reads(core_at(counter, n), 6, (fuel - 1) as nat);
}

proof fn test_compares(counter: nat, n: nat, fuel: nat)
    requires
        counter < u64::MAX,
        fuel >= 3,
    ensures
        reduce(core_at(counter, n), counter_test(), fuel) == Ok::<Tree, NockError>(
            flag(n == counter + 1),
        ),
{
    reveal_with_fuel(reduce, 2);
    reveal_with_fuel(read, 3);
    address_reads(core_at(counter, n), 7, (fuel - 1) as nat);
    successor_of_counter(counter, n, (fuel - 1) as nat);
}

proof fn next_core_counts(counter: nat, n: nat, fuel: nat)
    requires
        counter < u64::MAX,
        fuel >= 4,
    ensures
        reduce(core_at(counter, n), next_core(), fuel) == Ok::<Tree, NockError>(core_at(counter + 1, n)),
{
    let here = core_at(counter, n);
    let rest = Tree::pair(formula(OP_INCR, at(6)), at(7));
    reveal_with_fuel(read, 3);
    address_reads(here, 2, (fuel - 1) as nat);
    address_reads(here, 7, (fuel - 2) as nat);
    successor_of_counter(counter, n, (fuel - 2) as nat);
    assert(reduce(here, rest, (fuel - 1) as nat) == Ok::<Tree, NockError>(
        Tree::pair(Tree::Atom(counter + 1), Tree::Atom(n)),
    )) by {
        reveal_with_fuel(reduce, 2);
    }
    assert(reduce(here, next_core(), fuel) == Ok::<Tree, NockError>(core_at(counter + 1, n))) by {
        reveal_with_fuel(reduce, 2);
    }
}

/// From any counter below `n`, the arm counts up to the predecessor of `n`.
/// Each round nests three reductions more.
pub proof fn arm_counts_up(counter: nat, n: nat, fuel: nat)
    requires
        counter < n <= u64::MAX,
        fuel >= 3 * (n - counter) + 3,
    ensures
        reduce(core_at(counter, n), arm(), fuel) == Ok::<Tree, NockError>(Tree::Atom((n - 1) as nat)),
    decreases n - counter,
{
    let here = core_at(counter, n);
    let again = formula(OP_INVK, Tree::pair(Tree::Atom(2), next_core()));
    assert(reduce(here, arm(), fuel) == branch(
        here,
        Tree::pair(counter_test(), Tree::pair(at(6), again)),
        (fuel - 1) as nat,
    )) by {
        reveal_with_fuel(reduce, 2);
    }
    branch_is_direct(here, counter_test(), at(6), again, (fuel - 1) as nat);
    test_compares(counter, n, (fuel - 3) as nat);
    if n == counter + 1 {
        address_reads(here, 6, (fuel - 1) as nat);
        reveal_with_fuel(read, 3);
    } else {
        assert(reduce(here, again, (fuel - 1) as nat) == invoke(
            here,
            Tree::pair(Tree::Atom(2), next_core()),
            (fuel - 2) as nat,
        )) by {
            reveal_with_fuel(reduce, 2);
        }
        invoke_is_direct(here, Tree::Atom(2), next_core(), (fuel - 2) as nat);
        next_core_counts(counter, n, (fuel - 2) as nat);
        assert(read(2, core_at(counter + 1, n)) == Ok::<Tree, NockError>(arm())) by {
            reveal_with_fuel(read, 2);
        }
        arm_counts_up(counter + 1, n, (fuel - 3) as nat);
    }
}

/// Decrement: against any subject `n` from 1 to the largest word, the formula
/// reduces to `n - 1`, on a budget of `3n + 7` levels or more.
pub proof fn decrement_gives_predecessor(n: nat, fuel: nat)
    requires
        1 <= n <= u64::MAX,
        fuel >= 3 * n + 7,
    ensures
        reduce(Tree::Atom(n), decrement_formula(), fuel) == Ok::<Tree, NockError>(
            Tree::Atom((n - 1) as nat),
        ),
{
    let subj = Tree::Atom(n);
    let counted = Tree::pair(Tree::Atom(0), subj);
    let start = formula(OP_INVK, Tree::pair(Tree::Atom(2), at(1)));
    let inner = formula(OP_EXTN, Tree::pair(formula(OP_IDTY, arm()), start));
    quote_returns_operand(subj, Tree::Atom(0), (fuel - 1) as nat);
    assert(reduce(subj, decrement_formula(), fuel) == reduce(counted, inner, (fuel - 1) as nat))
        by {
        reveal_with_fuel(reduce, 2);
    }
    quote_returns_operand(counted, arm(), (fuel - 2) as nat);
    assert(reduce(counted, inner, (fuel - 1) as nat) == reduce(
        core_at(0, n),
        start,
        (fuel - 2) as nat,
    )) by {
        reveal_with_fuel(reduce, 2);
    }
    assert(reduce(core_at(0, n), start, (fuel - 2) as nat) == invoke(
        core_at(0, n),
        Tree::pair(Tree::Atom(2), at(1)),
        (fuel - 3) as nat,
    )) by {
        reveal_with_fuel(reduce, 2);
    }
    invoke_is_direct(core_at(0, n), Tree::Atom(2), at(1), (fuel - 3) as nat);
    address_reads(core_at(0, n), 1, (fuel - 3) as nat);
    assert(read(2, core_at(0, n)) == Ok::<Tree, NockError>(arm())) by {
        reveal_with_fuel(read, 2);
    }
    arm_counts_up(0, n, (fuel - 4) as nat);
}

} // verus!
