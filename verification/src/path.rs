//! Tree addressing.
//!
//! A path is a nonzero natural number read as a string of bits. The highest
//! set bit only marks where the route starts; each bit below it, from high to
//! low, says which side of a cell to descend into: 0 for the head, 1 for the
//! tail. So 1 is the root, and the two children of the node at `n` are at
//! `2n` and `2n + 1`.

use crate::error::{outcome, NockError};
use crate::noun::{Noun, NounInner, Tree};
use vstd::prelude::*;

verus! {

/// The side of `node` that the lowest bit of `path` selects.
pub open spec fn child(path: nat, node: Tree) -> Result<Tree, NockError> {
    match node {
        Tree::Atom(_) => Err(NockError::NotACell),
        Tree::Cell(head, tail) => Ok(
            if path % 2 == 0 {
                *head
            } else {
                *tail
            },
        ),
    }
}

/// The node of `root` at `path`.
///
/// Path zero is no address. Any other path names a child of the node at half
/// the path, which must therefore exist and be a cell.
pub open spec fn read(path: nat, root: Tree) -> Result<Tree, NockError>
    decreases path,
{
    if path == 0 {
        Err(NockError::InvalidAddress)
    } else if path == 1 {
        Ok(root)
    } else {
        match read(path / 2, root) {
            Ok(parent) => child(path, parent),
            Err(e) => Err(e),
        }
    }
}

/// `node` with the side that the lowest bit of `path` selects replaced by
/// `value`.
pub open spec fn with_child(path: nat, value: Tree, node: Tree) -> Result<Tree, NockError> {
    match node {
        Tree::Atom(_) => Err(NockError::NotACell),
        Tree::Cell(head, tail) => Ok(
            if path % 2 == 0 {
                Tree::pair(value, *tail)
            } else {
                Tree::pair(*head, value)
            },
        ),
    }
}

/// `target` with the node at `path` replaced by `value`.
///
/// Replacing the root gives `value`. Replacing any other node replaces its
/// parent by a cell that differs from the parent on one side only.
pub open spec fn replace(path: nat, value: Tree, target: Tree) -> Result<Tree, NockError>
    decreases path,
{
    if path == 0 {
        Err(NockError::InvalidAddress)
    } else if path == 1 {
        Ok(value)
    } else {
        match read(path / 2, target) {
            Ok(parent) => match with_child(path, value, parent) {
                Ok(rebuilt) => replace(path / 2, rebuilt, target),
                Err(e) => Err(e),
            },
            Err(e) => Err(e),
        }
    }
}

/// Path 1 is the root itself.
pub proof fn read_root(root: Tree)
    ensures
        read(1, root) == Ok::<Tree, NockError>(root),
{
}

/// Paths 2 and 3 are the head and the tail of a cell.
pub proof fn read_head_and_tail(head: Tree, tail: Tree)
    ensures
        read(2, Tree::pair(head, tail)) == Ok::<Tree, NockError>(head),
        read(3, Tree::pair(head, tail)) == Ok::<Tree, NockError>(tail),
{
    reveal_with_fuel(read, 2);
}

/// The children of the node at `n` are at `2n` and `2n + 1`: reading either
/// is reading `n` and then taking the head or the tail of what was found.
pub proof fn read_doubled(n: nat, root: Tree)
    requires
        n >= 1,
    ensures
        read(2 * n, root) == match read(n, root) {
            Ok(node) => read(2, node),
            Err(e) => Err(e),
        },
        read(2 * n + 1, root) == match read(n, root) {
            Ok(node) => read(3, node),
            Err(e) => Err(e),
        },
{
    reveal_with_fuel(read, 2);
    assert((2 * n) / 2 == n && (2 * n) % 2 == 0);
    assert((2 * n + 1) / 2 == n && (2 * n + 1) % 2 == 1);
}

/// An edit fails exactly where a read of the same path fails, and with the
/// same error, whatever the value written.
pub proof fn replace_fails_as_read(path: nat, value: Tree, target: Tree)
    ensures
        match read(path, target) {
            Ok(_) => replace(path, value, target) is Ok,
            Err(e) => replace(path, value, target) == Err::<Tree, NockError>(e),
        },
    decreases path,
{
    if path >= 2 {
        if let Ok(parent) = read(path / 2, target) {
            if let Ok(rebuilt) = with_child(path, value, parent) {
                replace_fails_as_read(path / 2, rebuilt, target);
            }
        }
    }
}

/// Reading back the path just written gives the value written.
pub proof fn read_after_replace(path: nat, value: Tree, target: Tree)
    requires
        read(path, target) is Ok,
    ensures
        replace(path, value, target) matches Ok(edited) && read(path, edited) == Ok::<
            Tree,
            NockError,
        >(value),
    decreases path,
{
    if path >= 2 {
        let parent = read(path / 2, target)->Ok_0;
        let rebuilt = with_child(path, value, parent)->Ok_0;
        read_after_replace(path / 2, rebuilt, target);
    }
}

/// Writing back what is already at a path changes nothing.
pub proof fn replace_with_same(path: nat, target: Tree)
    requires
        read(path, target) is Ok,
    ensures
        replace(path, read(path, target)->Ok_0, target) == Ok::<Tree, NockError>(target),
    decreases path,
{
    if path >= 2 {
        replace_with_same(path / 2, target);
    }
}

/// Whether the route from the root to `to` passes through `through`: the
/// two are the same node, or `through` is an ancestor of `to`.
pub open spec fn passes(through: nat, to: nat) -> bool
    decreases to,
{
    through >= 1 && (through == to || (to >= 2 && passes(through, to / 2)))
}

/// The child of `above` on the route to `to`, for a proper ancestor `above`.
spec fn step_toward(above: nat, to: nat) -> nat
    decreases to,
{
    if to < 2 || to / 2 == above {
        to
    } else {
        step_toward(above, to / 2)
    }
}

proof fn step_toward_is_on_route(above: nat, to: nat)
    requires
        passes(above, to),
        above != to,
    ensures
        step_toward(above, to) >= 2,
        step_toward(above, to) / 2 == above,
        passes(step_toward(above, to), to),
    decreases to,
{
    if to / 2 != above {
        step_toward_is_on_route(above, to / 2);
    }
}

/// An edit leaves the sibling of every node on the route as it was.
proof fn replace_keeps_sibling(path: nat, value: Tree, target: Tree, on_route: nat, beside: nat)
    requires
        read(path, target) is Ok,
        on_route >= 2,
        passes(on_route, path),
        beside / 2 == on_route / 2,
        beside != on_route,
    ensures
        read(beside, replace(path, value, target)->Ok_0) == read(beside, target),
    decreases path,
{
    let parent = read(path / 2, target)->Ok_0;
    let rebuilt = with_child(path, value, parent)->Ok_0;
    if on_route == path {
        read_after_replace(path / 2, rebuilt, target);
    } else {
        replace_keeps_sibling(path / 2, rebuilt, target, on_route, beside);
    }
}

/// An edit changes nothing off the route to the node it replaces: a path that
/// neither lies on that route nor leads through the replaced node reads the
/// same before and after.
pub proof fn replace_changes_only_the_route(path: nat, value: Tree, target: Tree, other: nat)
    requires
        read(path, target) is Ok,
        !passes(other, path),
        !passes(path, other),
    ensures
        read(other, replace(path, value, target)->Ok_0) == read(other, target),
    decreases other,
{
    replace_fails_as_read(path, value, target);
    if other >= 2 {
        let above = other / 2;
        if passes(above, path) {
            step_toward_is_on_route(above, path);
            replace_keeps_sibling(path, value, target, step_toward(above, path), other);
        } else {
            replace_changes_only_the_route(path, value, target, above);
        }
    } else if other == 1 {
        root_is_on_every_route(path);
    }
}

proof fn root_is_on_every_route(to: nat)
    requires
        to >= 1,
    ensures
        passes(1, to),
    decreases to,
{
    if to >= 2 {
        root_is_on_every_route(to / 2);
    }
}

/// Below a node that cannot be read, or that is an atom, nothing can be read.
proof fn read_fails_below(path: u64, depth: u64, root: Tree, e: NockError)
    requires
        depth < 64,
        path >> depth >= 1,
        read((path >> depth) as nat, root) == Err::<Tree, NockError>(e) || (depth >= 1
            && e == NockError::NotACell && read((path >> depth) as nat, root) matches Ok(
            Tree::Atom(_),
        )),
    ensures
        read(path as nat, root) == Err::<Tree, NockError>(e),
    decreases depth,
{
    if depth == 0 {
        assert(path >> 0 == path) by (bit_vector);
    } else {
        let up = (depth - 1) as u64;
        assert((path >> up) / 2 == path >> depth && path >> up >= 2) by (bit_vector)
            requires
                1 <= depth < 64,
                up == depth - 1,
                path >> depth >= 1,
        ;
        read_fails_below(path, up, root, e);
    }
}

/// The position of the highest set bit of `path`: the number of steps that
/// the path takes below the root.
fn top_bit(path: u64) -> (top: u64)
    requires
        path != 0,
    ensures
        top < 64,
        path >> top == 1,
{
    let top: u64 = (64 - path.leading_zeros() - 1) as u64;
    proof {
        vstd::std_specs::bits::axiom_u64_leading_zeros(path);
        let above = (top + 1) as u64;
        assert(path >> top == 1) by (bit_vector)
            requires
                top < 64,
                above == top + 1,
                (path >> top) & 1u64 != 0u64,
                path >> above == 0,
        ;
    }
    top
}

/// One step of a descent: the bit of `path` just below position `above`
/// tells the children of the node at `path >> above` apart.
proof fn step_down(path: u64, above: u64, cursor: u64, bit: u64)
    requires
        1 <= above < 64,
        cursor == above - 1,
        path >> above >= 1,
        bit == (path & (1u64 << cursor)) >> cursor,
    ensures
        (path >> cursor) / 2 == path >> above,
        path >> cursor >= 2,
        bit == (path >> cursor) % 2,
{
    assert((path >> cursor) / 2 == path >> above && path >> cursor >= 2 && bit == (path >> cursor)
        % 2) by (bit_vector)
        requires
            1 <= above < 64,
            cursor == above - 1,
            path >> above >= 1,
            bit == (path & (1u64 << cursor)) >> cursor,
    ;
}

/// The node of `root` at `path`, shared with `root`.
pub fn read_at(path: u64, root: &Noun) -> (found: Result<Noun, NockError>)
    ensures
        outcome(found) == read(path as nat, root@),
{
    if path == 0 {
        return Err(NockError::InvalidAddress);
    }
    let mut cursor: u64 = top_bit(path);
    let mut cur: &Noun = root;
    while cursor != 0
        invariant
            cursor < 64,
            path >> cursor >= 1,
            read((path >> cursor) as nat, root@) == Ok::<Tree, NockError>(cur@),
        decreases cursor,
    {
        let (car, cdr) = match &*cur.0 {
            NounInner::Cell(cell) => (&cell.0, &cell.1),
            NounInner::Atom(_) => {
                proof {
                    read_fails_below(path, cursor, root@, NockError::NotACell);
                }
                return Err(NockError::NotACell);
            },
        };
        let ghost above = cursor;
        cursor -= 1;
        let bit: u64 = (path & (1u64 << cursor)) >> cursor;
        proof {
            step_down(path, above, cursor, bit);
        }
        if bit == 0 {
            cur = car;
        } else {
            cur = cdr;
        }
    }
    proof {
        assert(path >> 0 == path) by (bit_vector);
    }
    Ok(cur.clone())
}

/// What the descent recorded at `depth` steps below the root: the bit taken
/// there, and the two sides of the cell it was taken from.
spec fn frame_matches(
    path: u64,
    top: u64,
    depth: int,
    frame: (u64, Noun, Noun),
    target: Tree,
) -> bool {
    let parent = (top - depth) as u64;
    let taken = (top - depth - 1) as u64;
    &&& read((path >> parent) as nat, target) == Ok::<Tree, NockError>(
        Tree::pair(frame.1@, frame.2@),
    )
    &&& frame.0 == (path >> taken) % 2
}

/// `target` with the node at `path` replaced by `new_val`.
///
/// Nothing is mutated: the cells on the way from the root to `path` are built
/// anew, and every subtree off that way is shared with `target`.
pub fn rplc_at(path: u64, new_val: Noun, target: &Noun) -> (edited: Result<Noun, NockError>)
    ensures
        outcome(edited) == replace(path as nat, new_val@, target@),
{
    if path == 0 {
        return Err(NockError::InvalidAddress);
    }
    let top: u64 = top_bit(path);
    let mut cursor: u64 = top;
    let mut stack: Vec<(u64, Noun, Noun)> = Vec::new();
    let mut current: &Noun = target;
    while cursor != 0
        invariant
            top < 64,
            cursor <= top,
            path >> cursor >= 1,
            read((path >> cursor) as nat, target@) == Ok::<Tree, NockError>(current@),
            stack.len() == top - cursor,
            forall|j: int|
                0 <= j < stack.len() ==> frame_matches(path, top, j, #[trigger] stack[j], target@),
        decreases cursor,
    {
        let (car, cdr) = match &*current.0 {
            NounInner::Cell(cell) => (&cell.0, &cell.1),
            NounInner::Atom(_) => {
                proof {
                    read_fails_below(path, cursor, target@, NockError::NotACell);
                    replace_fails_as_read(path as nat, new_val@, target@);
                }
                return Err(NockError::NotACell);
            },
        };
        let ghost above = cursor;
        cursor -= 1;
        let bit: u64 = (path & (1u64 << cursor)) >> cursor;
        proof {
            step_down(path, above, cursor, bit);
        }
        stack.push((bit, car.clone(), cdr.clone()));
        if bit == 0 {
            current = car;
        } else {
            current = cdr;
        }
    }
    let mut result = new_val;
    proof {
        assert(path >> 0 == path) by (bit_vector);
    }
    loop
        invariant
            top < 64,
            stack.len() <= top,
            path >> top == 1,
            path >> ((top - stack.len()) as u64) >= 1,
            replace(path as nat, new_val@, target@) == replace(
                (path >> ((top - stack.len()) as u64)) as nat,
                result@,
                target@,
            ),
            forall|j: int|
                0 <= j < stack.len() ==> frame_matches(path, top, j, #[trigger] stack[j], target@),
        decreases stack.len(),
    {
        let ghost frames = stack@;
        match stack.pop() {
            None => {
                return Ok(result);
            },
            Some((bit, car, cdr)) => {
                proof {
                    let j = frames.len() - 1;
                    let below = (top - frames.len()) as u64;
                    let parent = (top - j) as u64;
                    assert(frame_matches(path, top, j, frames[j], target@));
                    assert((path >> below) / 2 == path >> parent) by (bit_vector)
                        requires
                            below < 63,
                            parent == below + 1,
                    ;
                    assert(forall|i: int| 0 <= i < stack.len() ==> stack[i] == frames[i]);
                }
                result = if bit == 0 {
                    Noun::cell(result, cdr)
                } else {
                    Noun::cell(car, result)
                };
            },
        }
    }
}

} // verus!
