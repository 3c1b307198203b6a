//! Text assembly primitives: decimal rendering of integers, 1-based
//! positional placeholders, and separator joins, each pinned to an exact
//! spec-level sequence of characters.

use vstd::prelude::*;
use vstd::string::*;

verus! {

/// Relies on core's `<str as PartialEq>::eq`: two string slices are equal
/// exactly when they hold the same characters.
pub assume_specification[ <str as PartialEq>::eq ](a: &str, b: &str) -> (r: bool)
    ensures
        r == (a@ == b@),
;

/// Tests two string slices for character equality.
pub fn str_eq(a: &str, b: &str) -> (r: bool)
    ensures
        r == (a@ == b@),
{
    <str as PartialEq<str>>::eq(a, b)
}

/// The decimal digit character for `d` (0 through 9).
pub open spec fn dec_digit(d: nat) -> char
    recommends
        d < 10,
{
    if d == 0 {
        '0'
    } else if d == 1 {
        '1'
    } else if d == 2 {
        '2'
    } else if d == 3 {
        '3'
    } else if d == 4 {
        '4'
    } else if d == 5 {
        '5'
    } else if d == 6 {
        '6'
    } else if d == 7 {
        '7'
    } else if d == 8 {
        '8'
    } else {
        '9'
    }
}

/// Decimal rendering of `n`, most significant digit first, without leading
/// zeros (zero renders as the single digit `'0'`).
pub open spec fn dec_of(n: nat) -> Seq<char>
    decreases n,
{
    if n < 10 {
        seq![dec_digit(n)]
    } else {
        dec_of(n / 10) + seq![dec_digit(n % 10)]
    }
}

/// Decimal rendering of a signed value: a leading `'-'` for negatives.
pub open spec fn int_dec_of(i: int) -> Seq<char> {
    if i < 0 {
        seq!['-'] + dec_of((-i) as nat)
    } else {
        dec_of(i as nat)
    }
}

/// `'$'` followed by the decimal rendering of `index`.
pub open spec fn placeholder_text(index: nat) -> Seq<char> {
    seq!['$'] + dec_of(index)
}

/// The items joined left to right with `sep` between consecutive items.
pub open spec fn join_sep(items: Seq<Seq<char>>, sep: Seq<char>) -> Seq<char>
    decreases items.len(),
{
    if items.len() == 0 {
        Seq::empty()
    } else if items.len() == 1 {
        items[0]
    } else {
        join_sep(items.drop_last(), sep) + sep + items.last()
    }
}

fn digit_str(d: u64) -> (s: &'static str)
    requires
        d < 10,
    ensures
        s@ =~= seq![dec_digit(d as nat)],
{
    if d == 0 {
        proof {
            reveal_strlit("0");
        }
        "0"
    } else if d == 1 {
        proof {
            reveal_strlit("1");
        }
        "1"
    } else if d == 2 {
        proof {
            reveal_strlit("2");
        }
        "2"
    } else if d == 3 {
        proof {
            reveal_strlit("3");
        }
        "3"
    } else if d == 4 {
        proof {
            reveal_strlit("4");
        }
        "4"
    } else if d == 5 {
        proof {
            reveal_strlit("5");
        }
        "5"
    } else if d == 6 {
        proof {
            reveal_strlit("6");
        }
        "6"
    } else if d == 7 {
        proof {
            reveal_strlit("7");
        }
        "7"
    } else if d == 8 {
        proof {
            reveal_strlit("8");
        }
        "8"
    } else {
        proof {
            reveal_strlit("9");
        }
        "9"
    }
}

/// Renders `n` in decimal.
pub fn fmt_u64(n: u64) -> (s: String)
    ensures
        s@ == dec_of(n as nat),
    decreases n,
{
    if n < 10 {
        let s = digit_str(n).to_owned();
        assert(s@ =~= dec_of(n as nat));
        s
    } else {
        let mut s = fmt_u64(n / 10);
        s.append(digit_str(n % 10));
        assert(s@ =~= dec_of(n as nat));
        s
    }
}

/// Renders `i` in decimal, with a leading `'-'` when negative.
pub fn fmt_i64(i: i64) -> (s: String)
    ensures
        s@ == int_dec_of(i as int),
{
    if i >= 0 {
        let s = fmt_u64(i as u64);
        s
    } else {
        let mag: u64 = if i == i64::MIN {
            9223372036854775808u64
        } else {
            (-i) as u64
        };
        assert(mag as nat == (-(i as int)) as nat);
        proof {
            reveal_strlit("-");
        }
        let mut s = String::from_str("-");
        let digits = fmt_u64(mag);
        s.append(digits.as_str());
        assert(s@ =~= int_dec_of(i as int));
        s
    }
}

/// Renders the 1-based positional placeholder `$index`.
pub fn fmt_placeholder(index: usize) -> (s: String)
    ensures
        s@ == placeholder_text(index as nat),
{
    proof {
        reveal_strlit("$");
    }
    let mut s = String::from_str("$");
    let digits = fmt_u64(index as u64);
    s.append(digits.as_str());
    assert(s@ =~= placeholder_text(index as nat));
    s
}

/// Joins the parts with `sep` between consecutive parts.
pub fn join_sep_strs(parts: &Vec<String>, sep: &str) -> (s: String)
    ensures
        s@ == join_sep(parts@.map_values(|p: String| p@), sep@),
{
    let ghost m = parts@.map_values(|p: String| p@);
    let mut s = String::new();
    let mut i: usize = 0;
    while i < parts.len()
        invariant
            i <= parts.len(),
            m == parts@.map_values(|p: String| p@),
            s@ == join_sep(m.take(i as int), sep@),
        decreases parts.len() - i,
    {
        if i > 0 {
            s.append(sep);
        }
        s.append(parts[i].as_str());
        proof {
            assert(m.take(i + 1 as int).drop_last() =~= m.take(i as int));
            assert(m.take(i + 1 as int).last() == m[i as int]);
        }
        i = i + 1;
    }
    proof {
        assert(m.take(parts.len() as int) =~= m);
    }
    s
}

} // verus!
