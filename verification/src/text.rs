//! Small verified text utilities shared by the rest of the library:
//! substring search over character sequences, decimal rendering of
//! integers, and the `m:ss` clock strings the progress display uses.

use vstd::prelude::*;
use vstd::string::StrSliceExecFns;
use vstd::string::StringExecFns;

verus! {

/// The needle `n` occurs in the haystack `h` starting at position `i`.
pub open spec fn occurs_at(h: Seq<char>, n: Seq<char>, i: int) -> bool {
    0 <= i && i + n.len() <= h.len() && h.subrange(i, i + n.len()) == n
}

/// The needle `n` occurs somewhere in the haystack `h`.
pub open spec fn contains_seq(h: Seq<char>, n: Seq<char>) -> bool {
    exists|i: int| occurs_at(h, n, i)
}

/// Substring search, character by character.
pub fn contains_str(h: &str, n: &str) -> (r: bool)
    ensures
        r == contains_seq(h@, n@),
{
    let hl: usize = h.unicode_len();
    let nl: usize = n.unicode_len();
    if nl > hl {
        assert(forall|i: int| !occurs_at(h@, n@, i));
        return false;
    }
    let mut i: usize = 0;
    while i <= hl - nl
        invariant
            nl <= hl,
            hl == h@.len(),
            nl == n@.len(),
            i <= hl - nl + 1,
            forall|k: int| 0 <= k < i ==> !occurs_at(h@, n@, k),
        decreases hl - nl - i + 1,
    {
        let mut j: usize = 0;
        let mut matched: bool = true;
        while j < nl
            invariant
                nl <= hl,
                hl == h@.len(),
                nl == n@.len(),
                i + nl <= hl,
                j <= nl,
                matched ==> forall|k: int| 0 <= k < j ==> h@[i + k] == n@[k],
                !matched ==> exists|k: int| 0 <= k < j && h@[i + k] != n@[k],
            decreases nl - j,
        {
            if h.get_char(i + j) != n.get_char(j) {
                matched = false;
            }
            j = j + 1;
        }
        if matched {
            assert(h@.subrange(i as int, i + nl) =~= n@);
            assert(occurs_at(h@, n@, i as int));
            return true;
        }
        assert(!occurs_at(h@, n@, i as int));
        i = i + 1;
    }
    assert(forall|k: int| i <= k ==> !occurs_at(h@, n@, k));
    false
}

/// The character for one decimal digit.
pub open spec fn digit_char(d: int) -> char {
    if d == 0 {
        '0'
    } else if d == 1 {
        '1'
    } else if d == 2 {
        '2'
    } else if d == 3 {
        '3'
    } else if d == 4 {
        '4'
    } else if d == 5 {
        '5'
    } else if d == 6 {
        '6'
    } else if d == 7 {
        '7'
    } else if d == 8 {
        '8'
    } else {
        '9'
    }
}

/// The decimal rendering of `n`, most significant digit first and
/// without leading zeroes (a single zero for `n == 0`).
pub open spec fn dec_str(n: nat) -> Seq<char>
    decreases n,
{
    if n < 10 {
        seq![digit_char(n as int)]
    } else {
        dec_str(n / 10).push(digit_char((n % 10) as int))
    }
}

/// The string for one decimal digit.
fn digit_str(d: u64) -> (r: &'static str)
    requires
        d < 10,
    ensures
        r@ == seq![digit_char(d as int)],
{
    proof {
        reveal_strlit("0");
        reveal_strlit("1");
        reveal_strlit("2");
        reveal_strlit("3");
        reveal_strlit("4");
        reveal_strlit("5");
        reveal_strlit("6");
        reveal_strlit("7");
        reveal_strlit("8");
        reveal_strlit("9");
    }
    let r: &'static str = if d == 0 {
        "0"
    } else if d == 1 {
        "1"
    } else if d == 2 {
        "2"
    } else if d == 3 {
        "3"
    } else if d == 4 {
        "4"
    } else if d == 5 {
        "5"
    } else if d == 6 {
        "6"
    } else if d == 7 {
        "7"
    } else if d == 8 {
        "8"
    } else {
        "9"
    };
    proof {
        assert(r@ =~= seq![digit_char(d as int)]);
    }
    r
}

/// Renders `n` in decimal.
pub fn u64_to_string(n: u64) -> (s: String)
    ensures
        s@ == dec_str(n as nat),
    decreases n,
{
    if n < 10 {
        digit_str(n).to_owned()
    } else {
        let prefix = u64_to_string(n / 10);
        let s = prefix.concat(digit_str(n % 10));
        proof {
            assert(s@ =~= dec_str(n as nat));
        }
        s
    }
}

/// The decimal rendering of `n`, padded on the left with a zero to at
/// least two digits.
pub open spec fn padded2_str(n: nat) -> Seq<char> {
    if n < 10 {
        seq!['0'] + dec_str(n)
    } else {
        dec_str(n)
    }
}

/// Renders `n` in decimal, zero-padded to at least two digits.
pub fn u64_to_padded2(n: u64) -> (s: String)
    ensures
        s@ == padded2_str(n as nat),
{
    if n < 10 {
        proof {
            reveal_strlit("0");
        }
        let s = String::from_str("0").concat(digit_str(n));
        proof {
            assert(s@ =~= padded2_str(n as nat));
        }
        s
    } else {
        u64_to_string(n)
    }
}

/// The decimal rendering of `n`, padded on the left with zeroes to at
/// least three digits.
pub open spec fn padded3_str(n: nat) -> Seq<char> {
    if n < 10 {
        seq!['0', '0'] + dec_str(n)
    } else if n < 100 {
        seq!['0'] + dec_str(n)
    } else {
        dec_str(n)
    }
}

/// Renders `n` in decimal, zero-padded to at least three digits.
pub fn u64_to_padded3(n: u64) -> (s: String)
    ensures
        s@ == padded3_str(n as nat),
{
    if n < 10 {
        proof {
            reveal_strlit("00");
        }
        let s = String::from_str("00").concat(digit_str(n));
        proof {
            assert(s@ =~= padded3_str(n as nat));
        }
        s
    } else if n < 100 {
        proof {
            reveal_strlit("0");
        }
        let s = String::from_str("0").concat(u64_to_string(n).as_str());
        proof {
            assert(s@ =~= padded3_str(n as nat));
        }
        s
    } else {
        u64_to_string(n)
    }
}

/// A clock reading `m:ss`: whole minutes, a colon, and the remaining
/// seconds zero-padded to two digits.
pub open spec fn clock_str(secs: nat) -> Seq<char> {
    dec_str(secs / 60) + seq![':'] + padded2_str(secs % 60)
}

/// Renders a number of seconds as `m:ss`.
pub fn secs_to_clock(secs: u64) -> (s: String)
    ensures
        s@ == clock_str(secs as nat),
{
    proof {
        reveal_strlit(":");
    }
    let minutes = u64_to_string(secs / 60);
    let s = minutes.concat(":").concat(u64_to_padded2(secs % 60).as_str());
    proof {
        assert(s@ =~= clock_str(secs as nat));
    }
    s
}

} // verus!
