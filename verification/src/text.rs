//! Character-level helpers on strings: whitespace trimming, comparison,
//! searching, prefix stripping and decimal / hexadecimal rendering.

use vstd::prelude::*;
use vstd::string::*;

verus! {

/// What `char::is_whitespace` answers for a character (the Unicode
/// `White_Space` property).
pub uninterp spec fn char_is_whitespace(c: char) -> bool;

/// The ASCII whitespace characters, as `char::is_whitespace` documents them:
/// tab, line feed, vertical tab, form feed, carriage return and space.
pub open spec fn is_ascii_whitespace_char(c: char) -> bool {
    c == '\t' || c == '\n' || c == '\u{0B}' || c == '\u{0C}' || c == '\r' || c == ' '
}

/// Calls `char::is_whitespace`. The result is named by `char_is_whitespace`;
/// for ASCII characters the contract also states the documented answer.
#[verifier::external_body]
pub(crate) fn is_whitespace(c: char) -> (b: bool)
    ensures
        b == char_is_whitespace(c),
        (c as u32) < 128 ==> (b == is_ascii_whitespace_char(c)),
{
    c.is_whitespace()
}

/// Calls `String::push`: the string grows by exactly that character.
#[verifier::external_body]
pub(crate) fn push_char(s: &mut String, c: char)
    ensures
        final(s)@ == old(s)@.push(c),
{
    s.push(c);
}

/// First index at or after `i` that does not hold whitespace (or the length).
pub open spec fn skip_ws_from(s: Seq<char>, i: int) -> int
    decreases s.len() - i,
{
    if 0 <= i < s.len() && char_is_whitespace(s[i]) {
        skip_ws_from(s, i + 1)
    } else {
        i
    }
}

/// Largest end `<= j` such that the characters in `[end, j)` are whitespace,
/// never going below `lo`.
pub open spec fn trim_end_from(s: Seq<char>, lo: int, j: int) -> int
    decreases j - lo,
{
    if lo < j && j <= s.len() && char_is_whitespace(s[j - 1]) {
        trim_end_from(s, lo, j - 1)
    } else {
        j
    }
}

/// `str::trim`: the text without its leading and trailing whitespace.
pub open spec fn trim_spec(s: Seq<char>) -> Seq<char> {
    let a = skip_ws_from(s, 0);
    s.subrange(a, trim_end_from(s, a, s.len() as int))
}

proof fn lemma_skip_ws_bounds(s: Seq<char>, i: int)
    requires
        0 <= i <= s.len(),
    ensures
        i <= skip_ws_from(s, i) <= s.len(),
        skip_ws_from(s, i) < s.len() ==> !char_is_whitespace(s[skip_ws_from(s, i)]),
        forall|k: int| i <= k < skip_ws_from(s, i) ==> char_is_whitespace(#[trigger] s[k]),
    decreases s.len() - i,
{
    if i < s.len() && char_is_whitespace(s[i]) {
        lemma_skip_ws_bounds(s, i + 1);
    }
}

proof fn lemma_trim_end_bounds(s: Seq<char>, lo: int, j: int)
    requires
        0 <= lo <= j <= s.len(),
    ensures
        lo <= trim_end_from(s, lo, j) <= j,
        lo < trim_end_from(s, lo, j) ==> !char_is_whitespace(s[trim_end_from(s, lo, j) - 1]),
        forall|k: int| trim_end_from(s, lo, j) <= k < j ==> char_is_whitespace(#[trigger] s[k]),
    decreases j - lo,
{
    if lo < j && char_is_whitespace(s[j - 1]) {
        lemma_trim_end_bounds(s, lo, j - 1);
    }
}

/// Trimming twice trims nothing more than trimming once.
pub proof fn lemma_trim_idempotent(s: Seq<char>)
    ensures
        trim_spec(trim_spec(s)) == trim_spec(s),
{
    let a = skip_ws_from(s, 0);
    lemma_skip_ws_bounds(s, 0);
    let b = trim_end_from(s, a, s.len() as int);
    lemma_trim_end_bounds(s, a, s.len() as int);
    let t = s.subrange(a, b);
    if t.len() == 0 {
        assert(skip_ws_from(t, 0) == 0);
        assert(trim_end_from(t, 0, 0) == 0);
        assert(trim_spec(t) =~= t);
    } else {
        assert(t[0] == s[a]);
        assert(!char_is_whitespace(t[0]));
        assert(skip_ws_from(t, 0) == 0);
        assert(t[t.len() - 1] == s[b - 1]);
        assert(trim_end_from(t, 0, t.len() as int) == t.len());
        assert(trim_spec(t) =~= t);
    }
}

/// A trimmed text neither starts nor ends with whitespace.
pub proof fn lemma_trim_has_no_outer_whitespace(s: Seq<char>)
    ensures
        trim_spec(s).len() > 0 ==> !char_is_whitespace(trim_spec(s)[0]),
        trim_spec(s).len() > 0 ==> !char_is_whitespace(trim_spec(s).last()),
{
    let a = skip_ws_from(s, 0);
    lemma_skip_ws_bounds(s, 0);
    lemma_trim_end_bounds(s, a, s.len() as int);
}

/// `str::trim`, as an owned string.
pub fn trim(s: &str) -> (r: String)
    ensures
        r@ == trim_spec(s@),
{
    let n = s.unicode_len();
    let mut i: usize = 0;
    while i < n && is_whitespace(s.get_char(i))
        invariant
            n == s@.len(),
            0 <= i <= n,
            skip_ws_from(s@, i as int) == skip_ws_from(s@, 0),
        decreases n - i,
    {
        i = i + 1;
    }
    proof {
        lemma_skip_ws_bounds(s@, i as int);
    }
    let mut j: usize = n;
    while j > i && is_whitespace(s.get_char(j - 1))
        invariant
            n == s@.len(),
            i == skip_ws_from(s@, 0),
            i <= j <= n,
            trim_end_from(s@, i as int, j as int) == trim_end_from(s@, i as int, n as int),
        decreases j - i,
    {
        j = j - 1;
    }
    let sub = s.substring_char(i, j);
    String::from_str(sub)
}

/// Whether the text is empty once trimmed, i.e. consists only of whitespace.
pub fn is_blank(s: &str) -> (b: bool)
    ensures
        b == (trim_spec(s@).len() == 0),
{
    let t = trim(s);
    t.as_str().unicode_len() == 0
}

/// Character-wise equality of two strings.
pub fn str_eq(a: &str, b: &str) -> (r: bool)
    ensures
        r == (a@ == b@),
{
    let n = a.unicode_len();
    let m = b.unicode_len();
    if n != m {
        return false;
    }
    let mut i: usize = 0;
    while i < n
        invariant
            n == a@.len(),
            m == b@.len(),
            n == m,
            0 <= i <= n,
            forall|k: int| 0 <= k < i ==> a@[k] == b@[k],
        decreases n - i,
    {
        if a.get_char(i) != b.get_char(i) {
            return false;
        }
        i = i + 1;
    }
    assert(a@ =~= b@);
    true
}

/// Whether the character occurs in the string.
pub fn contains_char(s: &str, c: char) -> (r: bool)
    ensures
        r == s@.contains(c),
{
    let n = s.unicode_len();
    let mut i: usize = 0;
    while i < n
        invariant
            n == s@.len(),
            0 <= i <= n,
            forall|k: int| 0 <= k < i ==> s@[k] != c,
        decreases n - i,
    {
        if s.get_char(i) == c {
            assert(s@[i as int] == c);
            return true;
        }
        i = i + 1;
    }
    false
}

/// `str::strip_prefix`: the rest of `s` when it starts with `prefix`.
pub fn strip_prefix(s: &str, prefix: &str) -> (r: Option<String>)
    ensures
        match r {
            Some(rest) => prefix@.len() <= s@.len() && s@.subrange(0, prefix@.len() as int)
                == prefix@ && rest@ == s@.subrange(prefix@.len() as int, s@.len() as int),
            None => !(prefix@.len() <= s@.len() && s@.subrange(0, prefix@.len() as int)
                == prefix@),
        },
{
    let n = s.unicode_len();
    let p = prefix.unicode_len();
    if p > n {
        return None;
    }
    let head = s.substring_char(0, p);
    if !str_eq(head, prefix) {
        return None;
    }
    let rest = s.substring_char(p, n);
    Some(String::from_str(rest))
}

/// The decimal digit character for a value below ten.
pub open spec fn digit_char(d: nat) -> char {
    if d == 0 { '0' }
    else if d == 1 { '1' }
    else if d == 2 { '2' }
    else if d == 3 { '3' }
    else if d == 4 { '4' }
    else if d == 5 { '5' }
    else if d == 6 { '6' }
    else if d == 7 { '7' }
    else if d == 8 { '8' }
    else { '9' }
}

/// Decimal digits of a natural number, most significant first, no padding.
pub open spec fn decimal_digits(n: nat) -> Seq<char>
    decreases n,
{
    if n < 10 {
        seq![digit_char(n)]
    } else {
        decimal_digits(n / 10).push(digit_char(n % 10))
    }
}

/// Decimal rendering of an integer, as `Display` writes it.
pub open spec fn decimal(n: int) -> Seq<char> {
    if n < 0 {
        seq!['-'] + decimal_digits((-n) as nat)
    } else {
        decimal_digits(n as nat)
    }
}

fn digit(d: u64) -> (c: char)
    requires
        d < 10,
    ensures
        c == digit_char(d as nat),
{
    if d == 0 { '0' }
    else if d == 1 { '1' }
    else if d == 2 { '2' }
    else if d == 3 { '3' }
    else if d == 4 { '4' }
    else if d == 5 { '5' }
    else if d == 6 { '6' }
    else if d == 7 { '7' }
    else if d == 8 { '8' }
    else { '9' }
}

fn push_decimal_digits(s: &mut String, n: u64)
    ensures
        final(s)@ == old(s)@ + decimal_digits(n as nat),
    decreases n,
{
    if n >= 10 {
        push_decimal_digits(s, n / 10);
    }
    push_char(s, digit(n % 10));
    proof {
        if n >= 10 {
            assert(old(s)@ + decimal_digits(n as nat) =~= (old(s)@ + decimal_digits((n / 10) as nat)).push(
                digit_char((n % 10) as nat),
            ));
        } else {
            assert(old(s)@ + decimal_digits(n as nat) =~= old(s)@.push(digit_char(n as nat)));
        }
    }
}

/// Decimal rendering of an `i64`, with a leading `-` when negative.
pub fn render_i64(n: i64) -> (r: String)
    ensures
        r@ == decimal(n as int),
{
    let mut s = String::new();
    if n < 0 {
        push_char(&mut s, '-');
        let wide: i128 = n as i128;
        let mag: u64 = (0i128 - wide) as u64;
        let ghost before = s@;
        push_decimal_digits(&mut s, mag);
        assert(before =~= seq!['-']);
    } else {
        let ghost before = s@;
        push_decimal_digits(&mut s, n as u64);
        assert(before + decimal_digits(n as nat) =~= decimal_digits(n as nat));
    }
    s
}

} // verus!
