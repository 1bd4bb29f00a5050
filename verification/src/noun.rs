//! Nouns: the machine's only kind of value, a finite binary tree with
//! natural numbers at its leaves.
//!
//! [`Noun`] is the executable value; subtrees are reference counted and may be
//! shared between parents. [`Tree`] is what a noun denotes, and every contract
//! in this crate is stated over it.

use std::rc::Rc;
use vstd::prelude::*;

verus! {

/// The mathematical value of a noun: an atom is a natural number, a cell an
/// ordered pair of trees. Sharing is invisible here.
pub enum Tree {
    Atom(nat),
    Cell(Box<Tree>, Box<Tree>),
}

impl Tree {
    /// The cell `(head . tail)`.
    pub open spec fn pair(head: Tree, tail: Tree) -> Tree {
        Tree::Cell(Box::new(head), Box::new(tail))
    }

    /// The number of nodes, leaves included.
    pub open spec fn size(self) -> nat
        decreases self,
    {
        match self {
            Tree::Atom(_) => 1,
            Tree::Cell(head, tail) => 1 + head.size() + tail.size(),
        }
    }
}

/// A leaf value, held in one machine word.
#[derive(Clone, Copy, Debug, PartialEq, Eq, Structural)]
pub struct Atom(pub u64);

impl Atom {
    /// The successor of `atom`, or `None` where it does not fit in a word.
    pub fn incr(atom: Atom) -> (next: Option<Atom>)
        ensures
            next == if atom.0 < u64::MAX {
                Some(Atom((atom.0 + 1) as u64))
            } else {
                None
            },
    {
        match atom.0.checked_add(1) {
            Some(n) => Some(Atom(n)),
            None => None,
        }
    }
}

/// An ordered pair of nouns: head and tail.
#[derive(Debug)]
pub struct Cell(pub Noun, pub Noun);

/// What a noun points to.
#[derive(Debug)]
pub enum NounInner {
    Atom(Atom),
    Cell(Cell),
}

/// An immutable noun. Cloning one shares the node it points to.
#[derive(Debug)]
pub struct Noun(pub Rc<NounInner>);

impl View for NounInner {
    type V = Tree;

    open spec fn view(&self) -> Tree {
        match self {
            NounInner::Atom(a) => Tree::Atom(a.0 as nat),
            NounInner::Cell(c) => Tree::pair(c.0.view(), c.1.view()),
        }
    }
}

impl View for Noun {
    type V = Tree;

    open spec fn view(&self) -> Tree
        decreases self,
    {
        match *self.0 {
            NounInner::Atom(a) => Tree::Atom(a.0 as nat),
            NounInner::Cell(c) => Tree::pair(c.0.view(), c.1.view()),
        }
    }
}

/// `Rc::clone`: a second handle to the allocation behind `rc`, which
/// therefore holds the value that `rc` holds.
#[verifier::external_body]
fn share(rc: &Rc<NounInner>) -> (handle: Rc<NounInner>)
    ensures
        *handle == **rc,
{
    Rc::clone(rc)
}

/// `Rc::ptr_eq`: whether the two nouns are one allocation. Which nouns share
/// an allocation is not modelled, so all that is claimed is that one
/// allocation holds one value.
#[verifier::external_body]
pub(crate) fn same_node(a: &Noun, b: &Noun) -> (same: bool)
    ensures
        same ==> a@ == b@,
{
    Rc::ptr_eq(&a.0, &b.0)
}

impl Clone for Noun {
    fn clone(&self) -> (copy: Self)
        ensures
            copy == *self,
    {
        Noun(share(&self.0))
    }
}

impl Noun {
    /// The atom noun of the given value.
    pub fn atom(atom: Atom) -> (noun: Self)
        ensures
            noun@ == Tree::Atom(atom.0 as nat),
    {
        Noun(Rc::new(NounInner::Atom(atom)))
    }

    /// The cell `(car . cdr)`. Both subtrees are moved in, not copied.
    pub fn cell(car: Noun, cdr: Noun) -> (noun: Self)
        ensures
            noun@ == Tree::pair(car@, cdr@),
    {
        Noun(Rc::new(NounInner::Cell(Cell(car, cdr))))
    }

    /// Whether the noun is a cell.
    pub fn is_cell(&self) -> (yes: bool)
        ensures
            yes == (self@ is Cell),
    {
        match &*self.0 {
            NounInner::Cell(_) => true,
            NounInner::Atom(_) => false,
        }
    }
}

} // verus!
