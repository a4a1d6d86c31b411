//! Character-level helpers shared by the label, verdict and log-text code: reading a string's
//! characters, Unicode whitespace and trimming, and decimal rendering of integers.

use vstd::prelude::*;

verus! {

/// The Unicode `White_Space` property: the exact set `char::is_whitespace` answers true for.
pub open spec fn spec_is_whitespace(c: char) -> bool {
    let u = c as u32;
    ||| 0x09 <= u <= 0x0d
    ||| u == 0x20
    ||| u == 0x85
    ||| u == 0xa0
    ||| u == 0x1680
    ||| 0x2000 <= u <= 0x200a
    ||| u == 0x2028
    ||| u == 0x2029
    ||| u == 0x202f
    ||| u == 0x205f
    ||| u == 0x3000
}

/// `s` with its leading whitespace removed.
pub open spec fn spec_trim_start(s: Seq<char>) -> Seq<char>
    decreases s.len(),
{
    if s.len() > 0 && spec_is_whitespace(s[0]) {
        spec_trim_start(s.drop_first())
    } else {
        s
    }
}

/// `s` with its trailing whitespace removed.
pub open spec fn spec_trim_end(s: Seq<char>) -> Seq<char>
    decreases s.len(),
{
    if s.len() > 0 && spec_is_whitespace(s.last()) {
        spec_trim_end(s.drop_last())
    } else {
        s
    }
}

/// `s` with leading and trailing whitespace removed, as `str::trim` does.
pub open spec fn spec_trim(s: Seq<char>) -> Seq<char> {
    spec_trim_end(spec_trim_start(s))
}

/// The ASCII digit for `d` in `0..10`.
pub open spec fn spec_digit(d: int) -> char {
    ((48 + d) as u8) as char
}

/// Decimal digits of a natural number, most significant first, with no leading zeros.
pub open spec fn spec_digits(n: nat) -> Seq<char>
    decreases n,
{
    if n < 10 {
        seq![spec_digit(n as int)]
    } else {
        spec_digits(n / 10) + seq![spec_digit((n % 10) as int)]
    }
}

/// Decimal rendering of an integer, as `to_string` prints it: a `-` sign, then the digits.
pub open spec fn spec_decimal(n: int) -> Seq<char> {
    if n < 0 {
        seq!['-'] + spec_digits((-n) as nat)
    } else {
        spec_digits(n as nat)
    }
}

/// True when `c` has the Unicode `White_Space` property.
pub fn is_whitespace(c: char) -> (ws: bool)
    ensures
        ws == spec_is_whitespace(c),
{
    let u = c as u32;
    (0x09 <= u && u <= 0x0d) || u == 0x20 || u == 0x85 || u == 0xa0 || u == 0x1680 || (0x2000
        <= u && u <= 0x200a) || u == 0x2028 || u == 0x2029 || u == 0x202f || u == 0x205f || u
        == 0x3000
}

/// The characters of `s`, in order.
pub fn str_chars(s: &str) -> (chars: Vec<char>)
    ensures
        chars@ == s@,
{
    let n = s.unicode_len();
    let mut out: Vec<char> = Vec::new();
    let mut i: usize = 0;
    while i < n
        invariant
            n == s@.len(),
            i <= n,
            out@ == s@.subrange(0, i as int),
        decreases n - i,
    {
        out.push(s.get_char(i));
        i = i + 1;
    }
    assert(out@ == s@);
    out
}

/// A `String` holding exactly `chars`.
///
/// Calls std's `FromIterator<char>` for `String`, which appends each character in order; the
/// contract claims only that the result's characters are `chars`, in order.
#[verifier::external_body]
pub fn string_from_chars(chars: &Vec<char>) -> (s: String)
    ensures
        s@ == chars@,
{
    chars.iter().collect::<String>()
}

proof fn lemma_digits_len(n: nat)
    ensures
        1 <= spec_digits(n).len(),
    decreases n,
{
    if n >= 10 {
        lemma_digits_len(n / 10);
    }
}

/// Appends the decimal digits of `n` to `out`.
pub fn push_digits(out: &mut Vec<char>, n: u64)
    ensures
        final(out)@ == old(out)@ + spec_digits(n as nat),
    decreases n,
{
    if n >= 10 {
        push_digits(out, n / 10);
    }
    let d = (n % 10) as u8;
    out.push((48u8 + d) as char);
}

/// Appends the decimal rendering of `n` to `out`.
pub fn push_decimal(out: &mut Vec<char>, n: i64)
    ensures
        final(out)@ == old(out)@ + spec_decimal(n as int),
{
    if n < 0 {
        out.push('-');
        let m = (0i128 - (n as i128)) as u64;
        push_digits(out, m);
        assert(old(out)@ + seq!['-'] + spec_digits(m as nat) == old(out)@ + (seq!['-']
            + spec_digits(m as nat)));
    } else {
        push_digits(out, n as u64);
    }
}

/// The bounds `(lo, hi)` of the trimmed part of `chars`: `chars[lo..hi]` is `spec_trim(chars)`.
pub fn trimmed_bounds(chars: &Vec<char>) -> (bounds: (usize, usize))
    ensures
        bounds.0 <= bounds.1 <= chars@.len(),
        spec_trim(chars@) == chars@.subrange(bounds.0 as int, bounds.1 as int),
{
    let n = chars.len();
    let mut lo: usize = 0;
    assert(chars@.subrange(0, n as int) == chars@);
    while lo < n && is_whitespace(chars[lo])
        invariant
            n == chars@.len(),
            lo <= n,
            spec_trim_start(chars@) == spec_trim_start(chars@.subrange(lo as int, n as int)),
        decreases n - lo,
    {
        assert(chars@.subrange(lo as int, n as int).drop_first() == chars@.subrange(
            lo + 1,
            n as int,
        ));
        lo = lo + 1;
    }
    assert(spec_trim_start(chars@) == chars@.subrange(lo as int, n as int));
    let mut hi: usize = n;
    while hi > lo && is_whitespace(chars[hi - 1])
        invariant
            n == chars@.len(),
            lo <= hi <= n,
            spec_trim_start(chars@) == chars@.subrange(lo as int, n as int),
            spec_trim(chars@) == spec_trim_end(chars@.subrange(lo as int, hi as int)),
        decreases hi - lo,
    {
        assert(chars@.subrange(lo as int, hi as int).drop_last() == chars@.subrange(
            lo as int,
            hi - 1,
        ));
        hi = hi - 1;
    }
    (lo, hi)
}

} // verus!
