//! Nouns as text, for a reader who is debugging.
//!
//! An atom is written in decimal. A cell is written between braces as the
//! list of what hangs off its right-leaning spine, separated by single
//! spaces: `(a . (b . c))` is `{a b c}`, and `((a . b) . c)` is `{{a b} c}`.

use crate::noun::{Atom, Cell, Noun, NounInner, Tree};
use vstd::prelude::*;
use vstd::string::StringExecFns;

verus! {

/// The character for a single decimal digit.
pub open spec fn digit(d: nat) -> char {
    if d == 0 {
        '0'
    } else if d == 1 {
        '1'
    } else if d == 2 {
        '2'
    } else if d == 3 {
        '3'
    } else if d == 4 {
        '4'
    } else if d == 5 {
        '5'
    } else if d == 6 {
        '6'
    } else if d == 7 {
        '7'
    } else if d == 8 {
        '8'
    } else {
        '9'
    }
}

/// `n` in decimal, most significant digit first, without leading zeros.
pub open spec fn decimal(n: nat) -> Seq<char>
    decreases n,
{
    if n < 10 {
        seq![digit(n)]
    } else {
        decimal(n / 10).push(digit(n % 10))
    }
}

/// The text of a tree.
pub open spec fn rendering(tree: Tree) -> Seq<char>
    decreases tree,
{
    match tree {
        Tree::Atom(n) => decimal(n),
        Tree::Cell(head, tail) => seq!['{'] + rendering(*head) + seq![' '] + spine(*tail),
    }
}

/// The text of what follows the first item of a list, closing brace
/// included: the items of `tail` where it is a cell, `tail` itself where it
/// is the atom that ends the list.
pub open spec fn spine(tail: Tree) -> Seq<char>
    decreases tail,
{
    match tail {
        Tree::Atom(n) => decimal(n) + seq!['}'],
        Tree::Cell(head, rest) => rendering(*head) + seq![' '] + spine(*rest),
    }
}

fn digit_text(d: u64) -> (text: &'static str)
    requires
        d < 10,
    ensures
        text@ == seq![digit(d as nat)],
{
    proof {
        reveal_strlit("0");
        reveal_strlit("1");
        reveal_strlit("2");
        reveal_strlit("3");
        reveal_strlit("4");
        reveal_strlit("5");
        reveal_strlit("6");
        reveal_strlit("7");
        reveal_strlit("8");
        reveal_strlit("9");
    }
    let text = if d == 0 {
        "0"
    } else if d == 1 {
        "1"
    } else if d == 2 {
        "2"
    } else if d == 3 {
        "3"
    } else if d == 4 {
        "4"
    } else if d == 5 {
        "5"
    } else if d == 6 {
        "6"
    } else if d == 7 {
        "7"
    } else if d == 8 {
        "8"
    } else {
        "9"
    };
    assert(text@ =~= seq![digit(d as nat)]);
    text
}

fn push_decimal(n: u64, out: &mut String)
    ensures
        final(out)@ == old(out)@ + decimal(n as nat),
    decreases n,
{
    if n >= 10 {
        push_decimal(n / 10, out);
    }
    out.append(digit_text(n % 10));
    assert(out@ =~= old(out)@ + decimal(n as nat));
}

fn push_noun(noun: &Noun, out: &mut String)
    ensures
        final(out)@ == old(out)@ + rendering(noun@),
    decreases noun@.size(), 1nat,
{
    assert(noun@ == (*noun.0)@);
    match &*noun.0 {
        NounInner::Atom(atom) => {
            push_decimal(atom.0, out);
        },
        NounInner::Cell(cell) => {
            push_cell(cell, out);
        },
    }
}

fn push_cell(cell: &Cell, out: &mut String)
    ensures
        final(out)@ == old(out)@ + rendering(Tree::pair(cell.0@, cell.1@)),
    decreases 1 + cell.0@.size() + cell.1@.size(), 0nat,
{
    let ghost start = out@;
    let ghost whole = rendering(Tree::pair(cell.0@, cell.1@));
    proof {
        reveal_strlit("{");
        reveal_strlit(" ");
        reveal_strlit("}");
    }
    out.append("{");
    let mut current: &Cell = cell;
    assert(out@ + (rendering(current.0@) + seq![' '] + spine(current.1@)) =~= start + whole);
    loop
        invariant
            start == old(out)@,
            whole == rendering(Tree::pair(cell.0@, cell.1@)),
            out@ + (rendering(current.0@) + seq![' '] + spine(current.1@)) == start + whole,
            current.0@.size() + current.1@.size() <= cell.0@.size() + cell.1@.size(),
            "{"@ == seq!['{'],
            " "@ == seq![' '],
            "}"@ == seq!['}'],
        decreases current.1@.size(),
    {
        let ghost before = out@;
        push_noun(&current.0, out);
        out.append(" ");
        assert(current.1@ == (*current.1.0)@);
        match &*current.1.0 {
            NounInner::Cell(next) => {
                assert(out@ + (rendering(next.0@) + seq![' '] + spine(next.1@)) =~= before + (
                rendering(current.0@) + seq![' '] + spine(current.1@)));
                current = next;
            },
            NounInner::Atom(atom) => {
                push_decimal(atom.0, out);
                out.append("}");
                assert(spine(current.1@) == decimal(atom.0 as nat) + seq!['}']);
                assert(out@ =~= before + (rendering(current.0@) + seq![' '] + spine(current.1@)));
                return ;
            },
        }
    }
}

impl Atom {
    /// The atom in decimal.
    pub fn render(&self) -> (text: String)
        ensures
            text@ == decimal(self.0 as nat),
    {
        let mut out = String::new();
        push_decimal(self.0, &mut out);
        assert(out@ =~= decimal(self.0 as nat));
        out
    }
}

impl Cell {
    /// The cell as a braced list.
    pub fn render(&self) -> (text: String)
        ensures
            text@ == rendering(Tree::pair(self.0@, self.1@)),
    {
        let mut out = String::new();
        push_cell(self, &mut out);
        assert(out@ =~= rendering(Tree::pair(self.0@, self.1@)));
        out
    }
}

impl Noun {
    /// The noun as text.
    pub fn render(&self) -> (text: String)
        ensures
            text@ == rendering(self@),
    {
        let mut out = String::new();
        push_noun(self, &mut out);
        assert(out@ =~= rendering(self@));
        out
    }
}

} // verus!
