use nock::{noun_eq, read_at, rplc_at, Atom, Cell, NockError, Noun, NounInner};
use std::rc::Rc;

fn a(n: u64) -> Noun {
    Noun::atom(Atom(n))
}

fn c(head: Noun, tail: Noun) -> Noun {
    Noun::cell(head, tail)
}

/// `((22 . (89 . 78)) . 44)`
fn sample() -> Noun {
    c(c(a(22), c(a(89), a(78))), a(44))
}

fn head_of(noun: &Noun) -> Noun {
    match &*noun.0 {
        NounInner::Cell(Cell(head, _)) => head.clone(),
        NounInner::Atom(_) => panic!("no head in an atom"),
    }
}

fn tail_of(noun: &Noun) -> Noun {
    match &*noun.0 {
        NounInner::Cell(Cell(_, tail)) => tail.clone(),
        NounInner::Atom(_) => panic!("no tail in an atom"),
    }
}

#[test]
fn read_at_one_is_the_root() {
    let t = sample();
    let found = read_at(1, &t).unwrap();
    assert!(Rc::ptr_eq(&found.0, &t.0));
    assert!(noun_eq(read_at(1, &a(5)).unwrap(), a(5)));
}

#[test]
fn read_at_two_and_three_are_head_and_tail() {
    let t = sample();
    assert_eq!(read_at(2, &t).unwrap().render(), "{22 89 78}");
    assert_eq!(read_at(3, &t).unwrap().render(), "44");
}

#[test]
fn read_at_follows_the_bits_from_high_to_low() {
    let t = sample();
    assert_eq!(read_at(4, &t).unwrap().render(), "22");
    assert_eq!(read_at(5, &t).unwrap().render(), "{89 78}");
    assert_eq!(read_at(10, &t).unwrap().render(), "89");
    assert_eq!(read_at(11, &t).unwrap().render(), "78");
}

#[test]
fn read_at_twice_a_path_is_the_head_of_what_is_at_the_path() {
    let t = c(c(c(a(8), a(9)), c(a(10), a(11))), c(c(a(12), a(13)), c(a(14), a(15))));
    let mut n: u64 = 1;
    while n < 8 {
        let here = read_at(n, &t).unwrap();
        let left = read_at(2 * n, &t).unwrap();
        let right = read_at(2 * n + 1, &t).unwrap();
        assert!(noun_eq(left, read_at(2, &here).unwrap()));
        assert!(noun_eq(right, read_at(3, &here).unwrap()));
        n += 1;
    }
    let mut leaf: u64 = 8;
    while leaf < 16 {
        assert!(noun_eq(read_at(leaf, &t).unwrap(), a(leaf)));
        leaf += 1;
    }
}

#[test]
fn read_at_zero_is_no_address() {
    assert_eq!(read_at(0, &sample()).err(), Some(NockError::InvalidAddress));
    assert_eq!(read_at(0, &a(1)).err(), Some(NockError::InvalidAddress));
}

#[test]
fn read_at_cannot_descend_into_an_atom() {
    assert_eq!(read_at(2, &a(7)).err(), Some(NockError::NotACell));
    assert_eq!(read_at(3, &a(7)).err(), Some(NockError::NotACell));
    assert_eq!(read_at(6, &sample()).err(), Some(NockError::NotACell));
    assert_eq!(read_at(8, &sample()).err(), Some(NockError::NotACell));
    assert_eq!(read_at(u64::MAX, &sample()).err(), Some(NockError::NotACell));
}

#[test]
fn read_at_reaches_the_deepest_path_of_a_word() {
    let mut t = a(7);
    let mut i = 0;
    while i < 63 {
        t = c(a(0), t);
        i += 1;
    }
    assert!(noun_eq(read_at(u64::MAX, &t).unwrap(), a(7)));
    assert!(noun_eq(read_at(u64::MAX - 1, &t).unwrap(), a(0)));
}

#[test]
fn rplc_at_one_replaces_the_root() {
    let r = rplc_at(1, a(5), &sample()).unwrap();
    assert!(noun_eq(r, a(5)));
}

#[test]
fn rplc_at_replaces_head_or_tail() {
    assert_eq!(rplc_at(2, a(5), &sample()).unwrap().render(), "{5 44}");
    assert_eq!(
        rplc_at(3, a(5), &sample()).unwrap().render(),
        "{{22 89 78} 5}"
    );
}

#[test]
fn rplc_at_replaces_a_deep_node() {
    assert_eq!(
        rplc_at(11, c(a(1), a(2)), &sample()).unwrap().render(),
        "{{22 89 1 2} 44}"
    );
    assert_eq!(
        rplc_at(4, c(a(1), a(2)), &sample()).unwrap().render(),
        "{{{1 2} 89 78} 44}"
    );
}

#[test]
fn rplc_at_leaves_the_target_as_it_was() {
    let t = sample();
    let _ = rplc_at(10, a(55), &t).unwrap();
    assert_eq!(t.render(), "{{22 89 78} 44}");
}

#[test]
fn rplc_at_fails_where_read_at_fails() {
    let t = sample();
    assert_eq!(rplc_at(0, a(1), &t).err(), Some(NockError::InvalidAddress));
    assert_eq!(rplc_at(6, a(1), &t).err(), Some(NockError::NotACell));
    assert_eq!(rplc_at(8, a(1), &t).err(), Some(NockError::NotACell));
    assert_eq!(rplc_at(2, a(1), &a(9)).err(), Some(NockError::NotACell));
    assert_eq!(rplc_at(u64::MAX, a(1), &t).err(), Some(NockError::NotACell));
}

#[test]
fn read_after_rplc_gives_the_value_written() {
    let t = sample();
    for path in [1u64, 2, 3, 4, 5, 10, 11] {
        let value = c(a(path), a(1000));
        let edited = rplc_at(path, value.clone(), &t).unwrap();
        assert!(noun_eq(read_at(path, &edited).unwrap(), value));
    }
}

#[test]
fn rplc_of_what_is_there_changes_nothing() {
    let t = sample();
    for path in [1u64, 2, 3, 4, 5, 10, 11] {
        let there = read_at(path, &t).unwrap();
        let edited = rplc_at(path, there, &t).unwrap();
        assert!(noun_eq(edited, t.clone()));
    }
}

#[test]
fn rplc_at_shares_what_is_off_the_route() {
    let t = sample();
    let edited = rplc_at(10, a(55), &t).unwrap();
    // the tail of the root, the head of the head, and the sibling of the node
    assert!(Rc::ptr_eq(&tail_of(&edited).0, &tail_of(&t).0));
    assert!(Rc::ptr_eq(
        &head_of(&head_of(&edited)).0,
        &head_of(&head_of(&t)).0
    ));
    assert!(Rc::ptr_eq(
        &read_at(11, &edited).unwrap().0,
        &read_at(11, &t).unwrap().0
    ));
    // the route itself is built anew
    assert!(!Rc::ptr_eq(&edited.0, &t.0));
    assert!(!Rc::ptr_eq(&head_of(&edited).0, &head_of(&t).0));
}

#[test]
fn rplc_at_changes_nothing_off_the_route() {
    let t = sample();
    let edited = rplc_at(5, a(0), &t).unwrap();
    assert!(noun_eq(read_at(3, &edited).unwrap(), a(44)));
    assert!(noun_eq(read_at(4, &edited).unwrap(), a(22)));
}
