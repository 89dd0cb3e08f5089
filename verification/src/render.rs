//! The textual renderer: turns a list of integers into the deterministic
//! form `[e0, e1, ..., en]`, with the elements written in decimal and
//! separated by `", "`. The exact bracket/comma-space format is part of
//! the contract, so that the rendering can be compared character for
//! character against that of a reference ordered collection.

use crate::list::link_view;
use crate::list::Link;
use crate::list::SinglyList;
use vstd::prelude::*;
use vstd::string::StringExecFns;

verus! {

/// The character for one decimal digit value.
pub open spec fn digit_char(d: nat) -> char {
    if d == 0 {
        '0'
    } else if d == 1 {
        '1'
    } else if d == 2 {
        '2'
    } else if d == 3 {
        '3'
    } else if d == 4 {
        '4'
    } else if d == 5 {
        '5'
    } else if d == 6 {
        '6'
    } else if d == 7 {
        '7'
    } else if d == 8 {
        '8'
    } else {
        '9'
    }
}

/// The decimal rendering of a number: most significant digit first, a
/// single `'0'` for zero, no leading zeros otherwise.
pub open spec fn dec_chars(n: nat) -> Seq<char>
    decreases n,
{
    if n < 10 {
        seq![digit_char(n)]
    } else {
        dec_chars(n / 10) + seq![digit_char(n % 10)]
    }
}

/// The rendering of the elements alone: decimal values joined by `", "`.
pub open spec fn rendered_elements(s: Seq<u64>) -> Seq<char>
    decreases s.len(),
{
    if s.len() == 0 {
        Seq::empty()
    } else if s.len() == 1 {
        dec_chars(s[0] as nat)
    } else {
        dec_chars(s[0] as nat) + seq![',', ' '] + rendered_elements(s.drop_first())
    }
}

/// The full rendering: the elements between `'['` and `']'`.
pub open spec fn rendered(s: Seq<u64>) -> Seq<char> {
    seq!['['] + rendered_elements(s) + seq![']']
}

/// Appends the character of one decimal digit value.
fn append_digit(s: &mut String, d: u64)
    requires
        d < 10,
    ensures
        final(s)@ == old(s)@ + seq![digit_char(d as nat)],
{
    proof {
        reveal_strlit("0");
        reveal_strlit("1");
        reveal_strlit("2");
        reveal_strlit("3");
        reveal_strlit("4");
        reveal_strlit("5");
        reveal_strlit("6");
        reveal_strlit("7");
        reveal_strlit("8");
        reveal_strlit("9");
    }
    let digit: &str = if d == 0 {
        "0"
    } else if d == 1 {
        "1"
    } else if d == 2 {
        "2"
    } else if d == 3 {
        "3"
    } else if d == 4 {
        "4"
    } else if d == 5 {
        "5"
    } else if d == 6 {
        "6"
    } else if d == 7 {
        "7"
    } else if d == 8 {
        "8"
    } else {
        "9"
    };
    s.append(digit);
    proof {
        assert(s@ =~= old(s)@ + seq![digit_char(d as nat)]);
    }
}

/// Appends the decimal rendering of `n`, digit by digit.
fn append_u64(s: &mut String, n: u64)
    ensures
        final(s)@ == old(s)@ + dec_chars(n as nat),
    decreases n,
{
    if n < 10 {
        append_digit(s, n);
    } else {
        append_u64(s, n / 10);
        append_digit(s, n % 10);
        proof {
            assert(s@ =~= old(s)@ + dec_chars(n as nat));
        }
    }
}

/// Renders the elements of a chain, joined by `", "`, by walking it head
/// to tail.
fn render_chain(link: &Link<u64>) -> (s: String)
    ensures
        s@ == rendered_elements(link_view(*link)),
    decreases link,
{
    match link {
        None => String::new(),
        Some(node) => {
            let mut s = String::new();
            append_u64(&mut s, node.element);
            match &node.next {
                None => {
                    proof {
                        reveal_with_fuel(link_view, 2);
                        assert(s@ =~= rendered_elements(link_view(*link)));
                    }
                },
                Some(_) => {
                    proof {
                        reveal_strlit(", ");
                    }
                    s.append(", ");
                    let rest = render_chain(&node.next);
                    s = s.concat(rest.as_str());
                    proof {
                        assert((seq![node.element] + link_view(node.next)).drop_first()
                            =~= link_view(node.next));
                        assert(s@ =~= rendered_elements(link_view(*link)));
                    }
                },
            }
            s
        }
    }
}

impl SinglyList<u64> {
    /// Renders the content as `[e0, e1, ..., en]`: the elements in
    /// head-to-tail order, each in decimal, joined by `", "` and
    /// enclosed in square brackets.
    pub fn render(&self) -> (s: String)
        ensures
            s@ == rendered(self@),
    {
        proof {
            reveal_strlit("[");
            reveal_strlit("]");
        }
        let mut s = String::from_str("[");
        let elements = render_chain(self.head_link());
        s.append(elements.as_str());
        s.append("]");
        proof {
            assert(s@ =~= rendered(self@));
        }
        s
    }
}

} // verus!
