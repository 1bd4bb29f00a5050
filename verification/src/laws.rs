//! Laws of reduction: what holds of every subject and every formula.

use crate::error::NockError;
use crate::noun::Tree;
use crate::path::read;
use crate::semantics::{
    address, apply, branch, call_arm, compose, deep_equal, distribute, edit, evaluate, extend, flag,
    formula, hinted, increment, invoke, reduce, NAH, OP_ADDR, OP_EQAL, OP_IDTY, OP_INCR, YES,
};
use vstd::prelude::*;

verus! {

/// Quoting: the formula `(quote . f)` reduces to `f` itself, unevaluated,
/// against every subject, and so against `f`.
pub proof fn quote_returns_operand(subj: Tree, f: Tree, fuel: nat)
    requires
        fuel >= 1,
    ensures
        reduce(subj, formula(OP_IDTY, f), fuel) == Ok::<Tree, NockError>(f),
        reduce(f, formula(OP_IDTY, f), fuel) == Ok::<Tree, NockError>(f),
{
    reveal_with_fuel(reduce, 2);
}

/// Equality: against the subject `(a . b)`, deep-equal of the head and the
/// tail answers yes where `a` and `b` are the same tree, and no otherwise.
pub proof fn deep_equal_decides_equality(a: Tree, b: Tree, fuel: nat)
    requires
        fuel >= 2,
    ensures
        reduce(
            Tree::pair(a, b),
            formula(
                OP_EQAL,
                Tree::pair(formula(OP_ADDR, Tree::Atom(2)), formula(OP_ADDR, Tree::Atom(3))),
            ),
            fuel,
        ) == Ok::<Tree, NockError>(flag(a == b)),
{
    reveal_with_fuel(reduce, 4);
    reveal_with_fuel(read, 2);
}

/// Compose against eval: composing `b` with `c` reduces `c` against the value
/// of `b`, where eval would first reduce `c` against the subject to obtain
/// the formula. So compose is the eval of `b` and of `c` quoted.
pub proof fn compose_is_eval_of_quote(subj: Tree, b: Tree, c: Tree, fuel: nat)
    ensures
        compose(subj, Tree::pair(b, c), fuel) == evaluate(
            subj,
            Tree::pair(b, formula(OP_IDTY, c)),
            fuel,
        ),
{
    reveal_with_fuel(reduce, 2);
}

/// Fuel only bounds a reduction: one that ends without running out of fuel
/// ends the same way, with the same noun or the same error, on any larger
/// budget.
pub proof fn reduce_is_stable(subj: Tree, form: Tree, fuel: nat, more: nat)
    requires
        fuel <= more,
    ensures
        reduce(subj, form, fuel) != Err::<Tree, NockError>(NockError::OutOfFuel) ==> reduce(
            subj,
            form,
            more,
        ) == reduce(subj, form, fuel),
    decreases fuel, 0nat,
{
    if fuel > 0 {
        if let Tree::Cell(head, tail) = form {
            match *head {
                Tree::Cell(_, _) => {
                    distribute_is_stable(subj, *head, *tail, (fuel - 1) as nat, (more - 1) as nat);
                },
                Tree::Atom(op) => {
                    apply_is_stable(op, subj, *tail, (fuel - 1) as nat, (more - 1) as nat);
                },
            }
        }
    }
}

proof fn distribute_is_stable(subj: Tree, first: Tree, second: Tree, fuel: nat, more: nat)
    requires
        fuel <= more,
    ensures
        distribute(subj, first, second, fuel) != Err::<Tree, NockError>(NockError::OutOfFuel)
            ==> distribute(subj, first, second, more) == distribute(subj, first, second, fuel),
    decreases fuel, 1nat,
{
    reduce_is_stable(subj, first, fuel, more);
    reduce_is_stable(subj, second, fuel, more);
}

proof fn apply_is_stable(op: nat, subj: Tree, operand: Tree, fuel: nat, more: nat)
    requires
        fuel <= more,
    ensures
        apply(op, subj, operand, fuel) != Err::<Tree, NockError>(NockError::OutOfFuel) ==> apply(
            op,
            subj,
            operand,
            more,
        ) == apply(op, subj, operand, fuel),
    decreases fuel, 2nat,
{
    evaluate_is_stable(subj, operand, fuel, more);
    reduce_is_stable(subj, operand, fuel, more);
    deep_equal_is_stable(subj, operand, fuel, more);
    branch_is_stable(subj, operand, fuel, more);
    compose_is_stable(subj, operand, fuel, more);
    extend_is_stable(subj, operand, fuel, more);
    invoke_is_stable(subj, operand, fuel, more);
    edit_is_stable(subj, operand, fuel, more);
    hinted_is_stable(subj, operand, fuel, more);
}

proof fn evaluate_is_stable(subj: Tree, operand: Tree, fuel: nat, more: nat)
    requires
        fuel <= more,
    ensures
        evaluate(subj, operand, fuel) != Err::<Tree, NockError>(NockError::OutOfFuel) ==> evaluate(
            subj,
            operand,
            more,
        ) == evaluate(subj, operand, fuel),
    decreases fuel, 1nat,
{
    if let Tree::Cell(b, c) = operand {
        reduce_is_stable(subj, *b, fuel, more);
        reduce_is_stable(subj, *c, fuel, more);
        if let Ok(new_subj) = reduce(subj, *b, fuel) {
            if let Ok(new_form) = reduce(subj, *c, fuel) {
                reduce_is_stable(new_subj, new_form, fuel, more);
            }
        }
    }
}

proof fn deep_equal_is_stable(subj: Tree, operand: Tree, fuel: nat, more: nat)
    requires
        fuel <= more,
    ensures
        deep_equal(subj, operand, fuel) != Err::<Tree, NockError>(NockError::OutOfFuel)
            ==> deep_equal(subj, operand, more) == deep_equal(subj, operand, fuel),
    decreases fuel, 1nat,
{
    if let Tree::Cell(b, c) = operand {
        reduce_is_stable(subj, *b, fuel, more);
        reduce_is_stable(subj, *c, fuel, more);
    }
}

proof fn branch_is_stable(subj: Tree, operand: Tree, fuel: nat, more: nat)
    requires
        fuel <= more,
    ensures
        branch(subj, operand, fuel) != Err::<Tree, NockError>(NockError::OutOfFuel) ==> branch(
            subj,
            operand,
            more,
        ) == branch(subj, operand, fuel),
    decreases fuel, 1nat,
{
    if let Tree::Cell(b, cd) = operand {
        if let Tree::Cell(c, d) = *cd {
            let twice = formula(OP_INCR, formula(OP_INCR, *b));
            reduce_is_stable(subj, twice, fuel, more);
            if let Ok(bumped) = reduce(subj, twice, fuel) {
                let sides = Tree::pair(Tree::Atom(2), Tree::Atom(3));
                reduce_is_stable(sides, formula(OP_ADDR, bumped), fuel, more);
                if let Ok(side) = reduce(sides, formula(OP_ADDR, bumped), fuel) {
                    let arms = Tree::pair(*c, *d);
                    reduce_is_stable(arms, formula(OP_ADDR, side), fuel, more);
                    if let Ok(chosen) = reduce(arms, formula(OP_ADDR, side), fuel) {
                        reduce_is_stable(subj, chosen, fuel, more);
                    }
                }
            }
        }
    }
}

proof fn compose_is_stable(subj: Tree, operand: Tree, fuel: nat, more: nat)
    requires
        fuel <= more,
    ensures
        compose(subj, operand, fuel) != Err::<Tree, NockError>(NockError::OutOfFuel) ==> compose(
            subj,
            operand,
            more,
        ) == compose(subj, operand, fuel),
    decreases fuel, 1nat,
{
    if let Tree::Cell(b, c) = operand {
        reduce_is_stable(subj, *b, fuel, more);
        if let Ok(new_subj) = reduce(subj, *b, fuel) {
            reduce_is_stable(new_subj, *c, fuel, more);
        }
    }
}

proof fn extend_is_stable(subj: Tree, operand: Tree, fuel: nat, more: nat)
    requires
        fuel <= more,
    ensures
        extend(subj, operand, fuel) != Err::<Tree, NockError>(NockError::OutOfFuel) ==> extend(
            subj,
            operand,
            more,
        ) == extend(subj, operand, fuel),
    decreases fuel, 1nat,
{
    if let Tree::Cell(b, c) = operand {
        reduce_is_stable(subj, *b, fuel, more);
        if let Ok(pushed) = reduce(subj, *b, fuel) {
            reduce_is_stable(Tree::pair(pushed, subj), *c, fuel, more);
        }
    }
}

proof fn invoke_is_stable(subj: Tree, operand: Tree, fuel: nat, more: nat)
    requires
        fuel <= more,
    ensures
        invoke(subj, operand, fuel) != Err::<Tree, NockError>(NockError::OutOfFuel) ==> invoke(
            subj,
            operand,
            more,
        ) == invoke(subj, operand, fuel),
    decreases fuel, 1nat,
{
    if let Tree::Cell(b, c) = operand {
        reduce_is_stable(subj, *c, fuel, more);
        if let Ok(core) = reduce(subj, *c, fuel) {
            reduce_is_stable(core, call_arm(*b), fuel, more);
        }
    }
}

proof fn edit_is_stable(subj: Tree, operand: Tree, fuel: nat, more: nat)
    requires
        fuel <= more,
    ensures
        edit(subj, operand, fuel) != Err::<Tree, NockError>(NockError::OutOfFuel) ==> edit(
            subj,
            operand,
            more,
        ) == edit(subj, operand, fuel),
    decreases fuel, 1nat,
{
    if let Tree::Cell(bc, d) = operand {
        if let Tree::Cell(b, c) = *bc {
            reduce_is_stable(subj, *c, fuel, more);
            reduce_is_stable(subj, *d, fuel, more);
        }
    }
}

proof fn hinted_is_stable(subj: Tree, operand: Tree, fuel: nat, more: nat)
    requires
        fuel <= more,
    ensures
        hinted(subj, operand, fuel) != Err::<Tree, NockError>(NockError::OutOfFuel) ==> hinted(
            subj,
            operand,
            more,
        ) == hinted(subj, operand, fuel),
    decreases fuel, 1nat,
{
    if let Tree::Cell(_, f) = operand {
        reduce_is_stable(subj, *f, fuel, more);
    }
}

/// Branch, read directly: the test `b` must reduce to yes or no, and the arm
/// it names is then reduced against the same subject. A test that reduces to
/// anything else has no meaning, and the reduction fails.
pub open spec fn branch_directly(subj: Tree, b: Tree, c: Tree, d: Tree, fuel: nat) -> Result<
    Tree,
    NockError,
> {
    match reduce(subj, b, (fuel - 2) as nat) {
        Err(e) => Err(e),
        Ok(Tree::Cell(_, _)) => Err(NockError::NotAnAtom),
        Ok(Tree::Atom(n)) => if n == YES {
            reduce(subj, c, fuel)
        } else if n == NAH {
            reduce(subj, d, fuel)
        } else if n + 2 > u64::MAX {
            Err(NockError::AtomOverflow)
        } else {
            Err(NockError::NotACell)
        },
    }
}

/// In a cell of two atoms no path beyond 3 leads anywhere.
proof fn read_past_leaves(path: nat, m: nat, n: nat)
    requires
        path >= 4,
    ensures
        read(path, Tree::pair(Tree::Atom(m), Tree::Atom(n))) == Err::<Tree, NockError>(
            NockError::NotACell,
        ),
    decreases path,
{
    reveal_with_fuel(read, 3);
    if path / 2 >= 4 {
        read_past_leaves(path / 2, m, n);
    }
}

/// The machine's definition of branch by increment and address comes to the
/// direct reading, on every subject and operand. The two increments of the
/// definition take two levels of nesting, which is why the test has two less
/// to spend than the arms.
pub proof fn branch_is_direct(subj: Tree, b: Tree, c: Tree, d: Tree, fuel: nat)
    requires
        fuel >= 2,
    ensures
        branch(subj, Tree::pair(b, Tree::pair(c, d)), fuel) == branch_directly(
            subj,
            b,
            c,
            d,
            fuel,
        ),
{
    let once = formula(OP_INCR, b);
    let twice = formula(OP_INCR, once);
    let sides = Tree::pair(Tree::Atom(2), Tree::Atom(3));
    let arms = Tree::pair(c, d);
    assert(reduce(subj, once, (fuel - 1) as nat) == increment(subj, b, (fuel - 2) as nat)) by {
        reveal_with_fuel(reduce, 2);
    }
    assert(reduce(subj, twice, fuel) == increment(subj, once, (fuel - 1) as nat)) by {
        reveal_with_fuel(reduce, 2);
    }
    if let Ok(bumped) = reduce(subj, twice, fuel) {
        let n = reduce(subj, b, (fuel - 2) as nat)->Ok_0->Atom_0;
        assert(bumped == Tree::Atom(n + 2));
        assert(reduce(sides, formula(OP_ADDR, bumped), fuel) == read(n + 2, sides)) by {
            reveal_with_fuel(reduce, 2);
        }
        assert(read(n + 2, sides) == if n == 0 {
            Ok::<Tree, NockError>(Tree::Atom(2))
        } else if n == 1 {
            Ok(Tree::Atom(3))
        } else {
            Err(NockError::NotACell)
        }) by {
            reveal_with_fuel(read, 2);
            if n >= 2 {
                read_past_leaves(n + 2, 2, 3);
            }
        }
        if let Ok(side) = read(n + 2, sides) {
            assert(reduce(arms, formula(OP_ADDR, side), fuel) == read(side->Atom_0, arms)) by {
                reveal_with_fuel(reduce, 2);
            }
            assert(read(side->Atom_0, arms) == Ok::<Tree, NockError>(
                if n == 0 {
                    c
                } else {
                    d
                },
            )) by {
                reveal_with_fuel(read, 2);
            }
        }
    }
}

/// Invoke, read directly: the operand's second half reduces to a core, and
/// the formula at path `b` of that core is reduced against the core itself.
pub open spec fn invoke_directly(subj: Tree, b: Tree, c: Tree, fuel: nat) -> Result<
    Tree,
    NockError,
> {
    match reduce(subj, c, fuel) {
        Err(e) => Err(e),
        Ok(core) => match b {
            Tree::Cell(_, _) => Err(NockError::MalformedFormula),
            Tree::Atom(path) => match read(path, core) {
                Err(e) => Err(e),
                Ok(arm) => reduce(core, arm, (fuel - 1) as nat),
            },
        },
    }
}

/// The machine's definition of invoke by eval and address comes to the
/// direct reading, on every subject and operand. The eval of the definition
/// takes one level of nesting, which the arm then has less to spend.
pub proof fn invoke_is_direct(subj: Tree, b: Tree, c: Tree, fuel: nat)
    requires
        fuel >= 2,
    ensures
        invoke(subj, Tree::pair(b, c), fuel) == invoke_directly(subj, b, c, fuel),
{
    if let Ok(core) = reduce(subj, c, fuel) {
        let one_less = (fuel - 1) as nat;
        let itself = formula(OP_ADDR, Tree::Atom(1));
        let arm = formula(OP_ADDR, b);
        assert(reduce(core, call_arm(b), fuel) == evaluate(
            core,
            Tree::pair(itself, arm),
            one_less,
        )) by {
            reveal_with_fuel(reduce, 2);
        }
        assert(reduce(core, itself, one_less) == Ok::<Tree, NockError>(core)) by {
            reveal_with_fuel(reduce, 2);
        }
        assert(reduce(core, arm, one_less) == address(core, b)) by {
            reveal_with_fuel(reduce, 2);
        }
    }
}

} // verus!
