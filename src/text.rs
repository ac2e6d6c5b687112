use vstd::prelude::*;

verus! {

/// What `str::to_lowercase` makes of a text.
pub uninterp spec fn lower_of(s: Seq<char>) -> Seq<char>;

/// Relies on `str::to_lowercase`: Unicode lower-casing, which depends on the
/// characters alone.
#[verifier::external_body]
pub(crate) fn lowercase(s: &str) -> (r: String)
    ensures
        r@ == lower_of(s@),
{
    s.to_lowercase()
}

/// Whether two texts hold the same characters.
pub fn same_text(a: &str, b: &str) -> (r: bool)
    ensures
        r == (a@ == b@),
{
    let n = a.unicode_len();
    if n != b.unicode_len() {
        return false;
    }
    let mut i: usize = 0;
    while i < n
        invariant
            n == a@.len(),
            n == b@.len(),
            i <= n,
            forall|k: int| 0 <= k < i ==> a@[k] == b@[k],
        decreases n - i,
    {
        if a.get_char(i) != b.get_char(i) {
            return false;
        }
        i += 1;
    }
    assert(a@ =~= b@);
    true
}

pub open spec fn starts_with(s: Seq<char>, p: Seq<char>) -> bool {
    p.len() <= s.len() && s.subrange(0, p.len() as int) == p
}

/// Whether `s` begins with `p`.
pub fn has_prefix(s: &str, p: &str) -> (r: bool)
    ensures
        r == starts_with(s@, p@),
{
    let n = s.unicode_len();
    let m = p.unicode_len();
    if m > n {
        return false;
    }
    let mut i: usize = 0;
    while i < m
        invariant
            n == s@.len(),
            m == p@.len(),
            m <= n,
            i <= m,
            forall|k: int| 0 <= k < i ==> s@[k] == p@[k],
        decreases m - i,
    {
        if s.get_char(i) != p.get_char(i) {
            assert(s@.subrange(0, m as int)[i as int] != p@[i as int]);
            return false;
        }
        i += 1;
    }
    assert(s@.subrange(0, m as int) =~= p@);
    true
}

/// `s` with every leading repetition of `p` taken off.
pub open spec fn strip_all(s: Seq<char>, p: Seq<char>) -> Seq<char>
    decreases s.len(),
{
    if p.len() > 0 && starts_with(s, p) {
        strip_all(s.subrange(p.len() as int, s.len() as int), p)
    } else {
        s
    }
}

/// A field of `s` separated by `d`: the characters from `a` up to `b`, with a
/// separator (or the start) before and a separator (or the end) after, and
/// none in between.
pub open spec fn is_field(s: Seq<char>, d: char, a: int, b: int) -> bool {
    &&& 0 <= a <= b <= s.len()
    &&& (a == 0 || s[a - 1] == d)
    &&& (b == s.len() || s[b] == d)
    &&& forall|k: int| a <= k < b ==> s[k] != d
}

/// The end of the field that starts at `start`.
pub fn field_end(s: &str, n: usize, d: char, start: usize) -> (e: usize)
    requires
        n == s@.len(),
        start <= n,
    ensures
        start <= e <= n,
        e == n || s@[e as int] == d,
        forall|k: int| start <= k < e ==> s@[k] != d,
{
    let mut e = start;
    while e < n
        invariant
            n == s@.len(),
            start <= e <= n,
            forall|k: int| start <= k < e ==> s@[k] != d,
        decreases n - e,
    {
        if s.get_char(e) == d {
            return e;
        }
        e += 1;
    }
    e
}

/// A field found by `field_end` from a field start is the only field that
/// begins at or after that start and no later than its end.
pub proof fn lemma_field_found(s: Seq<char>, d: char, start: int, e: int, a: int, b: int)
    requires
        0 <= start <= e <= s.len(),
        start == 0 || s[start - 1] == d,
        e == s.len() || s[e] == d,
        forall|k: int| start <= k < e ==> s[k] != d,
        is_field(s, d, a, b),
        start <= a <= e,
    ensures
        a == start,
        b == e,
{
    if a > start {
        assert(s[a - 1] != d);
    }
    if b < e {
        assert(s[b] != d);
    }
    if b > e {
        assert(s[e] != d);
    }
}

pub open spec fn is_digit(c: char) -> bool {
    '0' <= c <= '9'
}

pub open spec fn digit_value(c: char) -> nat {
    (c as int - '0' as int) as nat
}

/// The number that a run of decimal digits denotes.
pub open spec fn digits_value(s: Seq<char>) -> nat
    decreases s.len(),
{
    if s.len() == 0 {
        0
    } else {
        digits_value(s.drop_last()) * 10 + digit_value(s.last())
    }
}

/// The digits of an unsigned number, after an optional `+`.
pub open spec fn unsigned_digits(s: Seq<char>) -> Seq<char> {
    if s.len() > 0 && s[0] == '+' {
        s.subrange(1, s.len() as int)
    } else {
        s
    }
}

/// What `usize::from_str` accepts: an optional `+`, then one or more decimal
/// digits whose value fits.
pub open spec fn decimal_usize(s: Seq<char>) -> Option<usize> {
    let d = unsigned_digits(s);
    if d.len() > 0 && (forall|i: int| 0 <= i < d.len() ==> is_digit(d[i])) && digits_value(d)
        <= usize::MAX {
        Some(digits_value(d) as usize)
    } else {
        None
    }
}

proof fn lemma_digits_grow(s: Seq<char>, k: int)
    requires
        0 <= k <= s.len(),
    ensures
        digits_value(s.subrange(0, k)) <= digits_value(s),
    decreases s.len() - k,
{
    if k < s.len() {
        let t = s.subrange(0, k + 1);
        assert(t.drop_last() =~= s.subrange(0, k));
        lemma_digits_grow(s, k + 1);
    } else {
        assert(s.subrange(0, k) =~= s);
    }
}

/// Reads an unsigned decimal number as `usize::from_str` does.
pub fn parse_usize(s: &str) -> (r: Option<usize>)
    ensures
        r == decimal_usize(s@),
{
    let n = s.unicode_len();
    let mut i: usize = 0;
    if n > 0 && s.get_char(0) == '+' {
        i = 1;
    }
    let ghost first = i as int;
    let ghost d = unsigned_digits(s@);
    assert(d =~= s@.subrange(first, n as int));
    if i == n {
        return None;
    }
    let mut value: usize = 0;
    while i < n
        invariant
            n == s@.len(),
            first <= i <= n,
            first == 0 || first == 1,
            d =~= s@.subrange(first, n as int),
            d == unsigned_digits(s@),
            d.len() > 0,
            forall|k: int| 0 <= k < i - first ==> is_digit(d[k]),
            value as nat == digits_value(d.subrange(0, i - first)),
        decreases n - i,
    {
        let c = s.get_char(i);
        assert(d[i - first] == c);
        if c < '0' || c > '9' {
            assert(!is_digit(d[i - first]));
            return None;
        }
        let dv = (c as u32 - '0' as u32) as usize;
        let ghost pre = d.subrange(0, i - first + 1);
        assert(pre.drop_last() =~= d.subrange(0, i - first));
        assert(digits_value(pre) == value * 10 + dv);
        if value > usize::MAX / 10 || value * 10 > usize::MAX - dv {
            proof {
                lemma_digits_grow(d, i - first + 1);
                if value > usize::MAX / 10 {
                    assert(value * 10 + dv > usize::MAX) by (nonlinear_arith)
                        requires
                            value > usize::MAX / 10,
                    ;
                }
                assert(digits_value(d) > usize::MAX);
            }
            return None;
        }
        value = value * 10 + dv;
        i += 1;
    }
    assert(d.subrange(0, d.len() as int) =~= d);
    Some(value)
}

} // verus!
