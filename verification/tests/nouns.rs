use nock::{noun_eq, Atom, Cell, Noun, NounInner};
use std::rc::Rc;

fn a(n: u64) -> Noun {
    Noun::atom(Atom(n))
}

fn c(head: Noun, tail: Noun) -> Noun {
    Noun::cell(head, tail)
}

/// The list `(0 . (1 . ( .. (len - 1 . len))))`.
fn list(len: u64) -> Noun {
    let mut noun = a(len);
    let mut i = len;
    while i > 0 {
        i -= 1;
        noun = c(a(i), noun);
    }
    noun
}

#[test]
fn atom_holds_its_value() {
    match &*a(42).0 {
        NounInner::Atom(atom) => assert_eq!(*atom, Atom(42)),
        NounInner::Cell(_) => panic!("an atom was built as a cell"),
    }
}

#[test]
fn cell_holds_head_and_tail_in_order() {
    match &*c(a(1), a(2)).0 {
        NounInner::Cell(Cell(head, tail)) => {
            assert!(noun_eq(head.clone(), a(1)));
            assert!(noun_eq(tail.clone(), a(2)));
        }
        NounInner::Atom(_) => panic!("a cell was built as an atom"),
    }
}

#[test]
fn is_cell_tells_cells_from_atoms() {
    assert!(!a(0).is_cell());
    assert!(!a(u64::MAX).is_cell());
    assert!(c(a(0), a(0)).is_cell());
    assert!(c(c(a(1), a(2)), a(3)).is_cell());
}

#[test]
fn atom_incr_adds_one() {
    assert_eq!(Atom::incr(Atom(0)), Some(Atom(1)));
    assert_eq!(Atom::incr(Atom(41)), Some(Atom(42)));
    assert_eq!(Atom::incr(Atom(u64::MAX - 1)), Some(Atom(u64::MAX)));
}

#[test]
fn atom_incr_stops_at_the_largest_word() {
    assert_eq!(Atom::incr(Atom(u64::MAX)), None);
}

#[test]
fn clone_shares_the_node() {
    let noun = c(a(1), a(2));
    let copy = noun.clone();
    assert!(Rc::ptr_eq(&noun.0, &copy.0));
    assert!(noun_eq(noun, copy));
}

#[test]
fn equal_constructions_need_not_be_one_object() {
    let left = c(a(1), a(2));
    let right = c(a(1), a(2));
    assert!(!Rc::ptr_eq(&left.0, &right.0));
    assert!(noun_eq(left, right));
}

#[test]
fn noun_eq_compares_atoms_by_value() {
    assert!(noun_eq(a(7), a(7)));
    assert!(!noun_eq(a(7), a(8)));
    assert!(noun_eq(a(u64::MAX), a(u64::MAX)));
}

#[test]
fn noun_eq_tells_atoms_from_cells() {
    assert!(!noun_eq(a(1), c(a(1), a(1))));
    assert!(!noun_eq(c(a(1), a(1)), a(1)));
}

#[test]
fn noun_eq_is_structural() {
    let left = c(c(a(1), a(2)), c(a(3), c(a(4), a(5))));
    let right = c(c(a(1), a(2)), c(a(3), c(a(4), a(5))));
    assert!(noun_eq(left, right));
}

#[test]
fn noun_eq_finds_a_difference_in_the_head() {
    let left = c(c(a(1), a(2)), a(3));
    let right = c(c(a(1), a(9)), a(3));
    assert!(!noun_eq(left, right));
}

#[test]
fn noun_eq_finds_a_difference_in_the_tail() {
    let left = c(a(1), c(a(2), a(3)));
    let right = c(a(1), c(a(2), a(4)));
    assert!(!noun_eq(left, right));
}

#[test]
fn noun_eq_finds_a_difference_in_shape() {
    let left = c(c(a(1), a(2)), a(3));
    let right = c(a(1), c(a(2), a(3)));
    assert!(!noun_eq(left, right));
}

#[test]
fn noun_eq_ignores_sharing() {
    let shared = c(a(1), a(2));
    let left = c(shared.clone(), shared);
    let right = c(c(a(1), a(2)), c(a(1), a(2)));
    assert!(noun_eq(left, right));
}

#[test]
fn noun_eq_handles_long_lists() {
    assert!(noun_eq(list(4000), list(4000)));
    assert!(!noun_eq(list(4000), list(4001)));
}

#[test]
fn render_writes_atoms_in_decimal() {
    assert_eq!(a(0).render(), "0");
    assert_eq!(a(7).render(), "7");
    assert_eq!(a(10).render(), "10");
    assert_eq!(a(42).render(), "42");
    assert_eq!(a(1_000_000).render(), "1000000");
    assert_eq!(a(u64::MAX).render(), "18446744073709551615");
    assert_eq!(Atom(905).render(), "905");
}

#[test]
fn render_flattens_the_right_spine() {
    assert_eq!(c(a(1), a(2)).render(), "{1 2}");
    assert_eq!(c(a(1), c(a(2), a(3))).render(), "{1 2 3}");
    assert_eq!(c(a(1), c(a(2), c(a(3), a(4)))).render(), "{1 2 3 4}");
}

#[test]
fn render_nests_cells_in_the_head() {
    assert_eq!(c(c(a(1), a(2)), a(3)).render(), "{{1 2} 3}");
    assert_eq!(
        c(c(a(22), c(a(89), a(78))), a(44)).render(),
        "{{22 89 78} 44}"
    );
    assert_eq!(
        c(a(0), c(c(a(1), c(a(2), a(3))), c(a(4), a(5)))).render(),
        "{0 {1 2 3} 4 5}"
    );
}

#[test]
fn render_of_a_cell_is_that_of_its_noun() {
    let noun = c(a(4), c(a(0), a(1)));
    match &*noun.0 {
        NounInner::Cell(cell) => assert_eq!(cell.render(), "{4 0 1}"),
        NounInner::Atom(_) => panic!("a cell was built as an atom"),
    }
    assert_eq!(noun.render(), "{4 0 1}");
}
