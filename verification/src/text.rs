//! Decimal rendering of integers, as shown in session ids and timer labels.

use vstd::prelude::*;
use vstd::string::*;

verus! {

/// The character of a decimal digit `d` (0..=9).
pub open spec fn digit_char(d: int) -> char {
    (d + 48) as char
}

/// The shortest decimal text of a natural number, most significant digit first.
pub open spec fn dec_text(n: nat) -> Seq<char>
    decreases n,
{
    if n < 10 {
        seq![digit_char(n as int)]
    } else {
        dec_text(n / 10).push(digit_char((n % 10) as int))
    }
}

/// The decimal text of an integer, with a leading `-` when it is negative.
pub open spec fn signed_text(i: int) -> Seq<char> {
    if i < 0 {
        seq!['-'] + dec_text((-i) as nat)
    } else {
        dec_text(i as nat)
    }
}

/// The decimal text of `n` padded with zeros to at least two characters.
pub open spec fn pad2_text(n: nat) -> Seq<char> {
    if n < 10 {
        seq!['0'] + dec_text(n)
    } else {
        dec_text(n)
    }
}

fn digit_str(d: u64) -> (s: &'static str)
    requires
        d < 10,
    ensures
        s@ == seq![digit_char(d as int)],
{
    proof {
        reveal_strlit("0");
        reveal_strlit("1");
        reveal_strlit("2");
        reveal_strlit("3");
        reveal_strlit("4");
        reveal_strlit("5");
        reveal_strlit("6");
        reveal_strlit("7");
        reveal_strlit("8");
        reveal_strlit("9");
    }
    let s = match d {
        0 => "0",
        1 => "1",
        2 => "2",
        3 => "3",
        4 => "4",
        5 => "5",
        6 => "6",
        7 => "7",
        8 => "8",
        _ => "9",
    };
    assert(s@ =~= seq![digit_char(d as int)]);
    s
}

/// Appends the decimal text of `n` to `out`.
pub fn push_decimal(out: &mut String, n: u64)
    ensures
        final(out)@ == old(out)@ + dec_text(n as nat),
    decreases n,
{
    if n >= 10 {
        push_decimal(out, n / 10);
    }
    out.append(digit_str(n % 10));
    proof {
        if n >= 10 {
            assert(dec_text(n as nat) == dec_text((n / 10) as nat).push(digit_char((n % 10) as int)));
        }
        assert(final(out)@ =~= old(out)@ + dec_text(n as nat)) by {
            if n < 10 {
                assert(n % 10 == n);
            }
        };
    }
}

/// The decimal text of an unsigned integer.
pub fn u64_text(n: u64) -> (s: String)
    ensures
        s@ == dec_text(n as nat),
{
    let mut s = String::new();
    push_decimal(&mut s, n);
    assert(s@ =~= dec_text(n as nat));
    s
}

/// The decimal text of a signed integer.
pub fn i64_text(n: i64) -> (s: String)
    ensures
        s@ == signed_text(n as int),
{
    let mut s = String::new();
    if n < 0 {
        s.append("-");
        proof { reveal_strlit("-"); }
        let magnitude: i128 = -(n as i128);
        push_decimal(&mut s, magnitude as u64);
        assert(s@ =~= signed_text(n as int));
    } else {
        push_decimal(&mut s, n as u64);
        assert(s@ =~= signed_text(n as int));
    }
    s
}

/// Appends `n` padded with zeros to at least two digits.
pub fn push_pad2(out: &mut String, n: u64)
    ensures
        final(out)@ == old(out)@ + pad2_text(n as nat),
{
    if n < 10 {
        out.append("0");
        proof { reveal_strlit("0"); }
    }
    push_decimal(out, n);
    assert(final(out)@ =~= old(out)@ + pad2_text(n as nat));
}

/// Decimal text is never empty.
pub proof fn lemma_dec_len(n: nat)
    ensures
        dec_text(n).len() >= 1,
    decreases n,
{
    if n >= 10 {
        lemma_dec_len(n / 10);
    }
}

/// Text padded to two digits is at least two characters long.
pub proof fn lemma_pad2_len(n: nat)
    ensures
        pad2_text(n).len() >= 2,
{
    lemma_dec_len(n);
    if n >= 10 {
        lemma_dec_len(n / 10);
    }
}

} // verus!
