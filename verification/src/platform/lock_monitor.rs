//! Screen lock detection. The probe asks PowerShell whether the `LogonUI`
//! process (present while the lock screen shows) is running; this module
//! reads its answer.

use vstd::prelude::*;
use vstd::string::*;

verus! {

/// Whether `c` is white space in the sense of Unicode's `White_Space`
/// property (what `char::is_whitespace` tests).
pub open spec fn is_white_space(c: char) -> bool {
    ||| c == ' '
    ||| ('\u{9}' <= c && c <= '\u{d}')
    ||| c == '\u{85}'
    ||| c == '\u{a0}'
    ||| c == '\u{1680}'
    ||| ('\u{2000}' <= c && c <= '\u{200a}')
    ||| c == '\u{2028}'
    ||| c == '\u{2029}'
    ||| c == '\u{202f}'
    ||| c == '\u{205f}'
    ||| c == '\u{3000}'
}

/// `s` without its leading white space.
pub open spec fn trim_start(s: Seq<char>) -> Seq<char>
    decreases s.len(),
{
    if s.len() > 0 && is_white_space(s[0]) {
        trim_start(s.drop_first())
    } else {
        s
    }
}

/// `s` without its trailing white space.
pub open spec fn trim_end(s: Seq<char>) -> Seq<char>
    decreases s.len(),
{
    if s.len() > 0 && is_white_space(s.last()) {
        trim_end(s.drop_last())
    } else {
        s
    }
}

/// `c` with ASCII upper-case letters turned to lower case.
pub open spec fn ascii_lower(c: char) -> char {
    if 'A' <= c && c <= 'Z' {
        ((c as u32) + 32) as char
    } else {
        c
    }
}

/// `a` and `b` are equal up to the case of ASCII letters.
pub open spec fn eq_ignore_ascii_case(a: Seq<char>, b: Seq<char>) -> bool {
    &&& a.len() == b.len()
    &&& forall|i: int| 0 <= i < a.len() ==> #[trigger] ascii_lower(a[i]) == ascii_lower(b[i])
}

/// The probe's output says the screen is locked: once trimmed, it reads
/// `True`, in any case.
pub open spec fn reports_locked(output: Seq<char>) -> bool {
    eq_ignore_ascii_case(trim_end(trim_start(output)), "true"@)
}

fn white_space(c: char) -> (b: bool)
    ensures
        b == is_white_space(c),
{
    c == ' ' || ('\u{9}' <= c && c <= '\u{d}') || c == '\u{85}' || c == '\u{a0}' || c
        == '\u{1680}' || ('\u{2000}' <= c && c <= '\u{200a}') || c == '\u{2028}' || c
        == '\u{2029}' || c == '\u{202f}' || c == '\u{205f}' || c == '\u{3000}'
}

fn lower(c: char) -> (r: char)
    ensures
        r == ascii_lower(c),
{
    if 'A' <= c && c <= 'Z' {
        let b: u8 = c as u8;
        assert(b as u32 == c as u32);
        (b + 32) as char
    } else {
        c
    }
}

proof fn lemma_trim_start_skip(s: Seq<char>, i: int)
    requires
        0 <= i < s.len(),
        is_white_space(s[i]),
    ensures
        trim_start(s.skip(i)) == trim_start(s.skip(i + 1)),
{
    assert(s.skip(i).drop_first() =~= s.skip(i + 1));
}

proof fn lemma_trim_end_take(s: Seq<char>, lo: int, hi: int)
    requires
        0 <= lo < hi <= s.len(),
        is_white_space(s[hi - 1]),
    ensures
        trim_end(s.subrange(lo, hi)) == trim_end(s.subrange(lo, hi - 1)),
{
    assert(s.subrange(lo, hi).drop_last() =~= s.subrange(lo, hi - 1));
}

/// Watches for the screen lock.
pub struct LockMonitor;

impl LockMonitor {
    pub fn new() -> (m: Self) {
        LockMonitor
    }

    /// Whether the probe's output says the screen is locked.
    pub fn is_locked_output(&self, output: &str) -> (locked: bool)
        ensures
            locked == reports_locked(output@),
    {
        let n = output.unicode_len();
        let mut lo: usize = 0;
        assert(output@.skip(0) =~= output@);
        while lo < n && white_space(output.get_char(lo))
            invariant
                n == output@.len(),
                lo <= n,
                trim_start(output@) == trim_start(output@.skip(lo as int)),
            decreases n - lo,
        {
            proof {
                lemma_trim_start_skip(output@, lo as int);
            }
            lo = lo + 1;
        }
        let ghost t = output@.skip(lo as int);
        assert(trim_start(t) == t) by {
            if t.len() > 0 {
                assert(t[0] == output@[lo as int]);
            }
        }
        assert(t =~= output@.subrange(lo as int, n as int));
        let mut hi: usize = n;
        while hi > lo && white_space(output.get_char(hi - 1))
            invariant
                n == output@.len(),
                lo <= hi <= n,
                trim_end(output@.subrange(lo as int, n as int)) == trim_end(
                    output@.subrange(lo as int, hi as int),
                ),
            decreases hi - lo,
        {
            proof {
                lemma_trim_end_take(output@, lo as int, hi as int);
            }
            hi = hi - 1;
        }
        let ghost u = output@.subrange(lo as int, hi as int);
        assert(trim_end(u) == u) by {
            if u.len() > 0 {
                assert(u.last() == output@[hi - 1]);
            }
        }
        proof {
            reveal_strlit("true");
        }
        if hi - lo != 4 {
            return false;
        }
        let c0 = lower(output.get_char(lo));
        let c1 = lower(output.get_char(lo + 1));
        let c2 = lower(output.get_char(lo + 2));
        let c3 = lower(output.get_char(lo + 3));
        let r = c0 == 't' && c1 == 'r' && c2 == 'u' && c3 == 'e';
        assert(u[0] == output@[lo as int]);
        assert(u[1] == output@[lo + 1]);
        assert(u[2] == output@[lo + 2]);
        assert(u[3] == output@[lo + 3]);
        assert(ascii_lower('t') == 't');
        assert(ascii_lower('r') == 'r');
        assert(ascii_lower('u') == 'u');
        assert(ascii_lower('e') == 'e');
        if r {
            assert(eq_ignore_ascii_case(u, "true"@));
        } else {
            assert(!eq_ignore_ascii_case(u, "true"@)) by {
                if c0 != 't' {
                    assert(ascii_lower(u[0]) != ascii_lower("true"@[0]));
                } else if c1 != 'r' {
                    assert(ascii_lower(u[1]) != ascii_lower("true"@[1]));
                } else if c2 != 'u' {
                    assert(ascii_lower(u[2]) != ascii_lower("true"@[2]));
                } else {
                    assert(ascii_lower(u[3]) != ascii_lower("true"@[3]));
                }
            }
        }
        r
    }
}

} // verus!
