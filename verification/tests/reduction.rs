use nock::semantics::{
    OP_ADDR, OP_BRCH, OP_CMPS, OP_EQAL, OP_EVAL, OP_EXTN, OP_IDTY, OP_INCR, OP_INVK,
};
use nock::{nock, noun_eq, rplc_at, Atom, Noun, NAH, YES};

const FUEL: u64 = 1_000_000;

fn a(n: u64) -> Noun {
    Noun::atom(Atom(n))
}

fn c(head: Noun, tail: Noun) -> Noun {
    Noun::cell(head, tail)
}

fn addr(path: u64) -> Noun {
    c(a(OP_ADDR), a(path))
}

fn idty(noun: Noun) -> Noun {
    c(a(OP_IDTY), noun)
}

fn incr(form: Noun) -> Noun {
    c(a(OP_INCR), form)
}

#[test]
fn test_addr() {
    let subject = c(c(c(c(a(8), a(42)), a(5)), a(2)), addr(9));

    let p = nock(subject, FUEL).unwrap();
    let e = Noun::atom(Atom(42));

    assert!(noun_eq(p, e));
}

#[test]
fn test_incr() {
    let n = c(a(40), incr(incr(addr(1))));

    let p = nock(n, FUEL).unwrap();
    let e = Noun::atom(Atom(42));

    assert!(noun_eq(p, e));
}

#[test]
fn test_eval() {
    let n = c(a(41), c(a(OP_EVAL), c(incr(addr(1)), idty(addr(1)))));

    let p = nock(n, FUEL).unwrap();
    let e = Noun::atom(Atom(42));

    assert!(noun_eq(p, e));
}

#[test]
fn test_brch_yes() {
    let n = c(a(YES), c(a(OP_BRCH), c(addr(1), c(idty(a(99)), idty(a(42))))));

    let p = nock(n, FUEL).unwrap();
    let e = Noun::atom(Atom(99));

    assert!(noun_eq(p, e));
}

#[test]
fn test_brch_nah() {
    let n = c(a(NAH), c(a(OP_BRCH), c(addr(1), c(idty(a(99)), idty(a(42))))));

    let p = nock(n, FUEL).unwrap();
    let e = Noun::atom(Atom(42));

    assert!(noun_eq(p, e));
}

#[test]
fn test_cmps() {
    // compose is like eval when quoting 'c'
    let n = c(a(41), c(a(OP_CMPS), c(incr(addr(1)), addr(1))));

    let p = nock(n, FUEL).unwrap();
    let e = Noun::atom(Atom(42));

    assert!(noun_eq(p, e));
}

#[test]
fn test_extn() {
    let n = c(a(42), c(a(OP_EXTN), c(incr(addr(1)), addr(1))));

    let p = nock(n, FUEL).unwrap();
    let e = Noun::cell(Noun::atom(Atom(43)), Noun::atom(Atom(42)));

    assert!(noun_eq(p, e));
}

#[test]
fn test_rplc() {
    let t = c(c(a(22), c(a(89), a(78))), a(44));
    let r = rplc_at(10, Noun::atom(Atom(55)), &t).unwrap();
    let e = c(c(a(22), c(a(55), a(78))), a(44));

    assert!(noun_eq(r, e));
}

/// The formula that decrements its subject: a core of one arm and a payload
/// `(b . a)` counts `b` up from 0 until `b + 1` equals `a`.
fn decrement() -> Noun {
    let test = c(a(OP_EQAL), c(addr(7), incr(addr(6))));
    let yes = addr(6);
    let new_core = c(addr(2), c(incr(addr(6)), addr(7)));
    let nah = c(a(OP_INVK), c(a(2), new_core));
    let arm = c(a(OP_BRCH), c(test, c(yes, nah)));
    let arm = idty(arm);
    c(
        a(OP_EXTN),
        c(
            idty(a(0)),
            c(a(OP_EXTN), c(arm, c(a(OP_INVK), c(a(2), addr(1))))),
        ),
    )
}

#[test]
fn test_decr() {
    let s = a(43);

    let p = nock(Noun::cell(s, decrement()), FUEL).unwrap();
    let e = a(42);

    assert!(noun_eq(p, e));
}

#[test]
fn decrement_of_other_numbers() {
    for n in [1u64, 2, 10, 100] {
        let p = nock(Noun::cell(a(n), decrement()), FUEL).unwrap();
        assert!(noun_eq(p, a(n - 1)));
    }
}

#[test]
fn decrement_on_a_short_budget_runs_out_of_fuel() {
    let p = nock(Noun::cell(a(43), decrement()), 50);
    assert_eq!(p.err(), Some(nock::NockError::OutOfFuel));
}

#[test]
fn decrement_built_by_the_library_is_the_same_formula() {
    assert!(noun_eq(nock::decrement::decrement(), decrement()));
    assert_eq!(
        nock::decrement::decrement().render(),
        "{8 {1 0} 8 {1 6 {5 {0 7} 4 0 6} {0 6} 9 2 {0 2} {4 0 6} 0 7} 9 2 0 1}"
    );
}

#[test]
fn decrement_nests_three_levels_for_each_round() {
    for n in [1u64, 2, 3, 10, 43, 200] {
        let enough = 3 * n + 7;
        let p = nock(Noun::cell(a(n), nock::decrement::decrement()), enough).unwrap();
        assert!(noun_eq(p, a(n - 1)));
        let short = nock(Noun::cell(a(n), nock::decrement::decrement()), enough - 1);
        assert_eq!(short.err(), Some(nock::NockError::OutOfFuel));
    }
}

#[test]
fn decrement_of_zero_finds_nothing_within_its_budget() {
    let p = nock(Noun::cell(a(0), nock::decrement::decrement()), 3000);
    assert_eq!(p.err(), Some(nock::NockError::OutOfFuel));
}
