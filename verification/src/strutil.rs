//! Small executable helpers for working with strings as sequences of
//! characters, together with the lemmas about prefixes and concatenation
//! that the manifest codec builds on.

use vstd::prelude::*;

verus! {

/// Relies on String::push: appends one character at the end of the string.
#[verifier::external_body]
pub fn push_char(s: &mut String, c: char)
    ensures
        final(s)@ == old(s)@.push(c),
{
    s.push(c);
}

/// Collects the characters of a string slice into a vector.
pub fn str_to_chars(s: &str) -> (v: Vec<char>)
    ensures
        v@ == s@,
{
    let n = s.unicode_len();
    let mut v: Vec<char> = Vec::new();
    let mut i: usize = 0;
    while i < n
        invariant
            i <= n,
            n == s@.len(),
            v@ == s@.subrange(0, i as int),
        decreases n - i,
    {
        let c = s.get_char(i);
        v.push(c);
        i = i + 1;
        assert(v@ =~= s@.subrange(0, i as int));
    }
    assert(v@ =~= s@);
    v
}

/// Builds a string out of a vector of characters.
pub fn chars_to_string(v: &Vec<char>) -> (s: String)
    ensures
        s@ == v@,
{
    let mut s = String::new();
    let mut i: usize = 0;
    while i < v.len()
        invariant
            i <= v.len(),
            s@ == v@.subrange(0, i as int),
        decreases v.len() - i,
    {
        push_char(&mut s, v[i]);
        i = i + 1;
        assert(s@ =~= v@.subrange(0, i as int));
    }
    assert(s@ =~= v@);
    s
}

/// Character-wise equality of two string slices.
pub fn str_eq(a: &str, b: &str) -> (r: bool)
    ensures
        r == (a@ == b@),
{
    let na = a.unicode_len();
    let nb = b.unicode_len();
    if na != nb {
        assert(a@ != b@) by {
            if a@ == b@ {
                assert(a@.len() == b@.len());
            }
        }
        return false;
    }
    let mut i: usize = 0;
    while i < na
        invariant
            i <= na,
            na == a@.len(),
            na == b@.len(),
            forall|j: int| 0 <= j < i ==> a@[j] == b@[j],
        decreases na - i,
    {
        let ca = a.get_char(i);
        let cb = b.get_char(i);
        if ca != cb {
            assert(a@ != b@) by {
                if a@ == b@ {
                    assert(a@[i as int] == b@[i as int]);
                }
            }
            return false;
        }
        i = i + 1;
    }
    assert(a@ =~= b@);
    true
}

/// The pattern `pat` occurs somewhere inside `s`.
pub open spec fn contains_seq(s: Seq<char>, pat: Seq<char>) -> bool {
    exists|i: int|
        0 <= i && i + pat.len() <= s.len() && #[trigger] s.subrange(i, i + pat.len() as int)
            == pat
}

/// Compares `s` against `pat` at position `i`.
fn matches_at(s: &Vec<char>, pat: &Vec<char>, i: usize) -> (r: bool)
    requires
        i + pat.len() <= s.len(),
    ensures
        r == (s@.subrange(i as int, i + pat@.len() as int) == pat@),
{
    let mut j: usize = 0;
    while j < pat.len()
        invariant
            j <= pat.len(),
            i + pat.len() <= s.len(),
            forall|k: int| 0 <= k < j ==> s@[i + k] == pat@[k],
        decreases pat.len() - j,
    {
        if s[i + j] != pat[j] {
            assert(s@.subrange(i as int, i + pat@.len() as int) != pat@) by {
                if s@.subrange(i as int, i + pat@.len() as int) == pat@ {
                    assert(s@.subrange(i as int, i + pat@.len() as int)[j as int] == pat@[j as int]);
                }
            }
            return false;
        }
        j = j + 1;
    }
    assert(s@.subrange(i as int, i + pat@.len() as int) =~= pat@);
    true
}

/// Substring search: does `pat` occur anywhere in `s`?
pub fn contains_str(s: &str, pat: &str) -> (r: bool)
    ensures
        r == contains_seq(s@, pat@),
{
    let sv = str_to_chars(s);
    let pv = str_to_chars(pat);
    if pv.len() > sv.len() {
        assert(!contains_seq(s@, pat@));
        return false;
    }
    if pv.len() == 0 {
        assert(s@.subrange(0, 0 + pat@.len() as int) =~= pat@);
        assert(contains_seq(s@, pat@));
        return true;
    }
    let mut i: usize = 0;
    let last = sv.len() - pv.len();
    while i <= last
        invariant
            sv@ == s@,
            pv@ == pat@,
            0 < pv.len() <= sv.len(),
            last == sv.len() - pv.len(),
            i <= last + 1,
            forall|k: int|
                0 <= k < i ==> #[trigger] s@.subrange(k, k + pat@.len() as int) != pat@,
        decreases last + 1 - i,
    {
        if matches_at(&sv, &pv, i) {
            assert(contains_seq(s@, pat@));
            return true;
        }
        i = i + 1;
    }
    assert(!contains_seq(s@, pat@));
    false
}

/// The decimal digit character for `n`.
pub open spec fn dec_digit(n: int) -> char {
    if n == 0 {
        '0'
    } else if n == 1 {
        '1'
    } else if n == 2 {
        '2'
    } else if n == 3 {
        '3'
    } else if n == 4 {
        '4'
    } else if n == 5 {
        '5'
    } else if n == 6 {
        '6'
    } else if n == 7 {
        '7'
    } else if n == 8 {
        '8'
    } else {
        '9'
    }
}

/// The decimal rendering of a natural number.
pub open spec fn spec_dec_nat(n: nat) -> Seq<char>
    decreases n,
{
    if n < 10 {
        seq![dec_digit(n as int)]
    } else {
        spec_dec_nat(n / 10) + seq![dec_digit((n % 10) as int)]
    }
}

/// The decimal rendering of an integer.
pub open spec fn spec_dec_int(n: int) -> Seq<char> {
    if n < 0 {
        seq!['-'] + spec_dec_nat((-n) as nat)
    } else {
        spec_dec_nat(n as nat)
    }
}

/// Renders a natural number in decimal.
pub fn dec_u64(n: u64) -> (r: String)
    ensures
        r@ == spec_dec_nat(n as nat),
    decreases n,
{
    let d: char = match n % 10 {
        0 => '0',
        1 => '1',
        2 => '2',
        3 => '3',
        4 => '4',
        5 => '5',
        6 => '6',
        7 => '7',
        8 => '8',
        _ => '9',
    };
    if n < 10 {
        let mut r = String::new();
        push_char(&mut r, d);
        assert(r@ =~= spec_dec_nat(n as nat));
        r
    } else {
        let mut r = dec_u64(n / 10);
        push_char(&mut r, d);
        assert(r@ =~= spec_dec_nat(n as nat));
        r
    }
}

/// Renders an integer in decimal.
pub fn dec_i64(n: i64) -> (r: String)
    requires
        n > i64::MIN,
    ensures
        r@ == spec_dec_int(n as int),
{
    if n < 0 {
        let mut r = String::new();
        push_char(&mut r, '-');
        let digits = dec_u64((-n) as u64);
        r.append(digits.as_str());
        proof {
            assert(r@ =~= spec_dec_int(n as int));
        }
        r
    } else {
        dec_u64(n as u64)
    }
}

/// The first index at or after `from` holding `c`, or `v.len()` when there is none.
pub fn find_char(v: &Vec<char>, from: usize, c: char) -> (r: usize)
    requires
        from <= v.len(),
    ensures
        from <= r <= v.len(),
        forall|k: int| from <= k < r ==> v@[k] != c,
        r < v.len() ==> v@[r as int] == c,
{
    let mut i = from;
    while i < v.len()
        invariant
            from <= i <= v.len(),
            forall|k: int| from <= k < i ==> v@[k] != c,
        decreases v.len() - i,
    {
        if v[i] == c {
            return i;
        }
        i = i + 1;
    }
    i
}

/// Copies the characters of `v` between `a` and `b` into a fresh vector.
pub fn slice_chars(v: &Vec<char>, a: usize, b: usize) -> (r: Vec<char>)
    requires
        a <= b <= v.len(),
    ensures
        r@ == v@.subrange(a as int, b as int),
{
    let mut r: Vec<char> = Vec::new();
    let mut i = a;
    while i < b
        invariant
            a <= i <= b <= v.len(),
            r@ == v@.subrange(a as int, i as int),
        decreases b - i,
    {
        r.push(v[i]);
        i = i + 1;
        assert(r@ =~= v@.subrange(a as int, i as int));
    }
    r
}

/// Splitting a concatenation: a prefix test against `a + b` splits into a
/// prefix test against `a` and one against the remainder after `a`.
pub proof fn lemma_pref_concat(a: Seq<char>, b: Seq<char>, s: Seq<char>)
    ensures
        (a + b).is_prefix_of(s) <==> (a.is_prefix_of(s) && b.is_prefix_of(s.skip(a.len() as int))),
{
    if (a + b).is_prefix_of(s) {
        assert(a =~= s.subrange(0, a.len() as int)) by {
            assert forall|k: int| 0 <= k < a.len() implies a[k] == s[k] by {
                assert((a + b)[k] == a[k]);
                assert(s.subrange(0, (a + b).len() as int)[k] == s[k]);
            }
        }
        assert(b =~= s.skip(a.len() as int).subrange(0, b.len() as int)) by {
            assert forall|k: int| 0 <= k < b.len() implies b[k] == s[a.len() + k] by {
                assert((a + b)[a.len() + k] == b[k]);
                assert(s.subrange(0, (a + b).len() as int)[a.len() + k] == s[a.len() + k]);
            }
        }
    }
    if a.is_prefix_of(s) && b.is_prefix_of(s.skip(a.len() as int)) {
        assert((a + b) =~= s.subrange(0, (a + b).len() as int)) by {
            assert forall|k: int| 0 <= k < a.len() + b.len() implies (a + b)[k] == s[k] by {
                if k < a.len() {
                    assert(s.subrange(0, a.len() as int)[k] == s[k]);
                } else {
                    assert(b[k - a.len()] == s.skip(a.len() as int).subrange(0, b.len() as int)[k
                        - a.len()]);
                    assert(s.skip(a.len() as int)[k - a.len()] == s[k]);
                }
            }
        }
    }
}

} // verus!
