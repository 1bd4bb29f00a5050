//! Structural equality of nouns.
//!
//! Two nouns are equal when they denote the same tree, however their nodes
//! are shared. The comparison keeps its pending work in an explicit queue, so
//! its depth does not grow with the depth of the trees compared.

use crate::noun::{same_node, Noun, NounInner};
use std::collections::VecDeque;
use vstd::prelude::*;

verus! {

/// Every pending pair holds two nodes of equal value.
spec fn all_equal(pending: Seq<(&NounInner, &NounInner)>) -> bool {
    forall|i: int| 0 <= i < pending.len() ==> (#[trigger] pending[i]).0@ == pending[i].1@
}

/// The number of tree nodes still to be visited on the left-hand sides.
spec fn work_left(pending: Seq<(&NounInner, &NounInner)>) -> nat
    decreases pending.len(),
{
    if pending.len() == 0 {
        0
    } else {
        pending.last().0@.size() + work_left(pending.drop_last())
    }
}

proof fn work_left_after_push(
    pending: Seq<(&NounInner, &NounInner)>,
    pair: (&NounInner, &NounInner),
)
    ensures
        work_left(pending.push(pair)) == work_left(pending) + pair.0@.size(),
{
    assert(pending.push(pair).drop_last() =~= pending);
}

proof fn work_left_after_pop(pending: Seq<(&NounInner, &NounInner)>)
    requires
        pending.len() > 0,
    ensures
        work_left(pending) == pending[0].0@.size() + work_left(
            pending.subrange(1, pending.len() as int),
        ),
    decreases pending.len(),
{
    let rest = pending.subrange(1, pending.len() as int);
    if pending.len() == 1 {
        assert(pending.drop_last() =~= rest);
    } else {
        work_left_after_pop(pending.drop_last());
        assert(pending.drop_last().subrange(1, pending.len() - 1) =~= rest.drop_last());
        assert(rest.last() == pending.last());
    }
}

/// Whether `a` and `b` denote the same tree.
pub fn noun_eq(a: Noun, b: Noun) -> (equal: bool)
    ensures
        equal == (a@ == b@),
{
    if same_node(&a, &b) {
        return true;
    }
    let mut deque: VecDeque<(&NounInner, &NounInner)> = VecDeque::new();
    deque.push_back((&*a.0, &*b.0));
    proof {
        work_left_after_push(Seq::empty(), (&*a.0, &*b.0));
    }
    loop
        invariant
            (a@ == b@) == all_equal(deque@),
        decreases work_left(deque@),
    {
        let ghost before = deque@;
        match deque.pop_front() {
            None => {
                return true;
            },
            Some((x, y)) => {
                proof {
                    work_left_after_pop(before);
                    assert(before[0] == (x, y));
                    assert(forall|i: int| 0 <= i < deque@.len() ==> deque@[i] == before[i + 1]);
                    assert(all_equal(before) ==> all_equal(deque@));
                    if all_equal(deque@) && x@ == y@ {
                        assert forall|i: int| 0 <= i < before.len() implies (#[trigger] before[i]).0@
                            == before[i].1@ by {
                            if i > 0 {
                                assert(before[i] == deque@[i - 1]);
                            }
                        }
                    }
                }
                match (x, y) {
                    (NounInner::Atom(m), NounInner::Atom(n)) => {
                        if m.0 != n.0 {
                            return false;
                        }
                    },
                    (NounInner::Cell(p), NounInner::Cell(q)) => {
                        let ghost rest = deque@;
                        deque.push_back((&*p.0.0, &*q.0.0));
                        let ghost mid = deque@;
                        deque.push_back((&*p.1.0, &*q.1.0));
                        proof {
                            work_left_after_push(rest, (&*p.0.0, &*q.0.0));
                            work_left_after_push(mid, (&*p.1.0, &*q.1.0));
                            let n = rest.len() as int;
                            assert(forall|i: int| 0 <= i < n ==> deque@[i] == rest[i]);
                            assert(deque@[n] == (&*p.0.0, &*q.0.0));
                            assert(deque@[n + 1] == (&*p.1.0, &*q.1.0));
                            assert(all_equal(deque@) ==> all_equal(rest));
                        }
                    },
                    _ => {
                        return false;
                    },
                }
            },
        }
    }
}

} // verus!
