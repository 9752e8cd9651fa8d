//! Verified string helpers: substring containment, character replacement,
//! space stripping, and decimal rendering of integers.

use vstd::prelude::*;

verus! {

/// Relies on `String::push` from std: appends exactly one character.
#[verifier::external_body]
pub(crate) fn push_char(s: &mut String, c: char)
    ensures
        final(s)@ == old(s)@.push(c),
{
    s.push(c)
}

/// `sub` occurs somewhere in `s` as a contiguous run of characters.
pub open spec fn spec_contains(s: Seq<char>, sub: Seq<char>) -> bool {
    exists|i: int| 0 <= i && i + sub.len() <= s.len() && #[trigger] s.subrange(i, i + sub.len() as int) == sub
}

/// `sub` matches `s` at position `i`.
fn matches_at(s: &str, sub: &str, i: usize) -> (b: bool)
    requires
        i + sub@.len() <= s@.len(),
    ensures
        b == (s@.subrange(i as int, i + sub@.len() as int) == sub@),
{
    let n = s.unicode_len();
    let m = sub.unicode_len();
    let mut j: usize = 0;
    while j < m
        invariant
            j <= m,
            n == s@.len(),
            m == sub@.len(),
            i + m <= n,
            forall|k: int| 0 <= k < j ==> s@[i + k] == sub@[k],
        decreases m - j,
    {
        if s.get_char(i + j) != sub.get_char(j) {
            proof {
                assert(s@.subrange(i as int, i + m as int)[j as int] == s@[i + j]);
            }
            return false;
        }
        j += 1;
    }
    proof {
        assert(s@.subrange(i as int, i + m as int) =~= sub@);
    }
    true
}

/// Substring search, specified by `spec_contains`.
pub fn contains_sub(s: &str, sub: &str) -> (b: bool)
    ensures
        b == spec_contains(s@, sub@),
{
    let n = s.unicode_len();
    let m = sub.unicode_len();
    if m > n {
        return false;
    }
    if m == 0 {
        proof {
            assert(s@.subrange(0, 0 + sub@.len() as int) =~= sub@);
        }
        return true;
    }
    let mut i: usize = 0;
    while i <= n - m
        invariant
            0 < m <= n,
            n == s@.len(),
            m == sub@.len(),
            i <= n - m + 1,
            forall|k: int| 0 <= k < i ==> #[trigger] s@.subrange(k, k + m as int) != sub@,
        decreases n - i,
    {
        if matches_at(s, sub, i) {
            return true;
        }
        i += 1;
    }
    false
}

/// `s` with every `/` replaced by `-`.
pub open spec fn spec_dashed(s: Seq<char>) -> Seq<char> {
    s.map(|i: int, c: char| if c == '/' { '-' } else { c })
}

/// Replaces every `/` with `-`, as `spec_dashed` states.
pub fn replace_slashes(s: &str) -> (r: String)
    ensures
        r@ == spec_dashed(s@),
{
    let n = s.unicode_len();
    let mut r = String::new();
    let mut i: usize = 0;
    while i < n
        invariant
            i <= n,
            n == s@.len(),
            r@ == spec_dashed(s@).subrange(0, i as int),
        decreases n - i,
    {
        let c = s.get_char(i);
        if c == '/' {
            push_char(&mut r, '-');
        } else {
            push_char(&mut r, c);
        }
        proof {
            assert(spec_dashed(s@).subrange(0, i + 1) =~= spec_dashed(s@).subrange(0, i as int).push(
                spec_dashed(s@)[i as int],
            ));
        }
        i += 1;
    }
    proof {
        assert(spec_dashed(s@).subrange(0, n as int) =~= spec_dashed(s@));
    }
    r
}

/// `s` with every space character removed, order kept.
pub open spec fn spec_stripped(s: Seq<char>) -> Seq<char>
    decreases s.len(),
{
    if s.len() == 0 {
        Seq::empty()
    } else if s.last() == ' ' {
        spec_stripped(s.drop_last())
    } else {
        spec_stripped(s.drop_last()).push(s.last())
    }
}

/// Removes every space character, as `spec_stripped` states.
pub fn strip_spaces(s: &str) -> (r: String)
    ensures
        r@ == spec_stripped(s@),
{
    let n = s.unicode_len();
    let mut r = String::new();
    let mut i: usize = 0;
    while i < n
        invariant
            i <= n,
            n == s@.len(),
            r@ == spec_stripped(s@.subrange(0, i as int)),
        decreases n - i,
    {
        let c = s.get_char(i);
        if c != ' ' {
            push_char(&mut r, c);
        }
        proof {
            let pre = s@.subrange(0, i + 1);
            assert(pre.drop_last() =~= s@.subrange(0, i as int));
            assert(pre.last() == s@[i as int]);
        }
        i += 1;
    }
    proof {
        assert(s@.subrange(0, n as int) =~= s@);
    }
    r
}

/// The character for one decimal digit.
pub open spec fn spec_digit(d: nat) -> char {
    if d == 0 {
        '0'
    } else if d == 1 {
        '1'
    } else if d == 2 {
        '2'
    } else if d == 3 {
        '3'
    } else if d == 4 {
        '4'
    } else if d == 5 {
        '5'
    } else if d == 6 {
        '6'
    } else if d == 7 {
        '7'
    } else if d == 8 {
        '8'
    } else {
        '9'
    }
}

/// The usual decimal rendering of `n`, without a sign and without leading
/// zeros (a single `0` for zero itself).
pub open spec fn spec_decimal(n: nat) -> Seq<char>
    decreases n,
{
    if n < 10 {
        seq![spec_digit(n)]
    } else {
        spec_decimal(n / 10).push(spec_digit(n % 10))
    }
}

fn digit_char(d: usize) -> (c: char)
    requires
        d < 10,
    ensures
        c == spec_digit(d as nat),
{
    if d == 0 {
        '0'
    } else if d == 1 {
        '1'
    } else if d == 2 {
        '2'
    } else if d == 3 {
        '3'
    } else if d == 4 {
        '4'
    } else if d == 5 {
        '5'
    } else if d == 6 {
        '6'
    } else if d == 7 {
        '7'
    } else if d == 8 {
        '8'
    } else {
        '9'
    }
}

/// Appends the decimal rendering of `n` to `s`.
pub fn push_decimal(s: &mut String, n: usize)
    ensures
        final(s)@ == old(s)@ + spec_decimal(n as nat),
    decreases n,
{
    if n >= 10 {
        push_decimal(s, n / 10);
    }
    push_char(s, digit_char(n % 10));
    proof {
        if n >= 10 {
            assert(old(s)@ + spec_decimal((n / 10) as nat).push(spec_digit((n % 10) as nat)) =~= (
            old(s)@ + spec_decimal((n / 10) as nat)).push(spec_digit((n % 10) as nat)));
        } else {
            assert(old(s)@ + seq![spec_digit(n as nat)] =~= old(s)@.push(spec_digit(n as nat)));
        }
    }
}

} // verus!
