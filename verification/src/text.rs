//! Small text helpers: decimal formatting and parsing, character access.

use vstd::prelude::*;
use vstd::string::*;

verus! {

broadcast use vstd::string::group_string_axioms;

/// Appends one character to a string (std's `String::push`).
#[verifier::external_body]
pub(crate) fn push_char(s: &mut String, c: char)
    ensures
        final(s)@ == old(s)@.push(c),
{
    s.push(c);
}

/// The character of a decimal digit.
pub open spec fn digit_char(d: nat) -> char
    recommends
        d < 10,
{
    (48 + d) as char
}

/// The decimal digits of `n`, most significant first, without leading zeros.
pub open spec fn decimal(n: nat) -> Seq<char>
    decreases n,
{
    if n < 10 {
        seq![digit_char(n)]
    } else {
        decimal(n / 10).push(digit_char(n % 10))
    }
}

fn write_decimal(s: &mut String, n: u32)
    ensures
        final(s)@ == old(s)@ + decimal(n as nat),
    decreases n,
{
    if n >= 10 {
        write_decimal(s, n / 10);
    }
    let d: u32 = n % 10;
    let c: char = if d == 0 {
        '0'
    } else if d == 1 {
        '1'
    } else if d == 2 {
        '2'
    } else if d == 3 {
        '3'
    } else if d == 4 {
        '4'
    } else if d == 5 {
        '5'
    } else if d == 6 {
        '6'
    } else if d == 7 {
        '7'
    } else if d == 8 {
        '8'
    } else {
        '9'
    };
    assert(c == digit_char(d as nat));
    push_char(s, c);
}

/// The decimal text of `n`, as `n.to_string()` writes it.
pub fn u32_to_string(n: u32) -> (res: String)
    ensures
        res@ == decimal(n as nat),
{
    let mut s = String::new();
    write_decimal(&mut s, n);
    s
}

/// A string made of the given characters.
pub fn string_from_chars(cs: &[char]) -> (res: String)
    ensures
        res@ == cs@,
{
    let mut s = String::new();
    let mut i: usize = 0;
    while i < cs.len()
        invariant
            i <= cs@.len(),
            s@ == cs@.subrange(0, i as int),
        decreases cs@.len() - i,
    {
        push_char(&mut s, cs[i]);
        i = i + 1;
    }
    assert(cs@.subrange(0, cs@.len() as int) == cs@);
    s
}

/// The characters of `s`, in order.
pub fn chars_of(s: &str) -> (res: Vec<char>)
    ensures
        res@ == s@,
{
    let n = s.unicode_len();
    let mut out: Vec<char> = Vec::new();
    let mut i: usize = 0;
    while i < n
        invariant
            n == s@.len(),
            i <= n,
            out@ == s@.subrange(0, i as int),
        decreases n - i,
    {
        out.push(s.get_char(i));
        i = i + 1;
    }
    assert(s@.subrange(0, n as int) == s@);
    out
}


/// Unicode white space, as `str::trim` removes it.
pub open spec fn is_ws(c: char) -> bool {
    ||| c == ' '
    ||| ('\t' <= c <= '\r')
    ||| c == '\u{85}'
    ||| c == '\u{a0}'
    ||| c == '\u{1680}'
    ||| ('\u{2000}' <= c <= '\u{200a}')
    ||| c == '\u{2028}'
    ||| c == '\u{2029}'
    ||| c == '\u{202f}'
    ||| c == '\u{205f}'
    ||| c == '\u{3000}'
}

pub fn is_ws_char(c: char) -> (b: bool)
    ensures
        b == is_ws(c),
{
    c == ' ' || ('\t' <= c && c <= '\r') || c == '\u{85}' || c == '\u{a0}' || c == '\u{1680}' || (
    '\u{2000}' <= c && c <= '\u{200a}') || c == '\u{2028}' || c == '\u{2029}' || c == '\u{202f}'
        || c == '\u{205f}' || c == '\u{3000}'
}

/// `s` without leading white space.
pub open spec fn trim_start(s: Seq<char>) -> Seq<char>
    decreases s.len(),
{
    if s.len() > 0 && is_ws(s[0]) {
        trim_start(s.drop_first())
    } else {
        s
    }
}

/// `s` without trailing white space.
pub open spec fn trim_end(s: Seq<char>) -> Seq<char>
    decreases s.len(),
{
    if s.len() > 0 && is_ws(s.last()) {
        trim_end(s.drop_last())
    } else {
        s
    }
}

/// `s` without white space at either end.
pub open spec fn trim(s: Seq<char>) -> Seq<char> {
    trim_end(trim_start(s))
}

/// `s` without its trailing run of `c`.
pub open spec fn strip_trailing(s: Seq<char>, c: char) -> Seq<char>
    decreases s.len(),
{
    if s.len() > 0 && s.last() == c {
        strip_trailing(s.drop_last(), c)
    } else {
        s
    }
}

proof fn lemma_trim_start_skip(s: Seq<char>, i: int)
    requires
        0 <= i <= s.len(),
        forall|k: int| 0 <= k < i ==> is_ws(#[trigger] s[k]),
    ensures
        trim_start(s) == trim_start(s.skip(i)),
    decreases i,
{
    if i > 0 {
        assert(s.drop_first().skip(i - 1) == s.skip(i));
        lemma_trim_start_skip(s.drop_first(), i - 1);
    } else {
        assert(s.skip(0) == s);
    }
}

proof fn lemma_trim_end_take(s: Seq<char>, j: int)
    requires
        0 <= j <= s.len(),
        forall|k: int| j <= k < s.len() ==> is_ws(#[trigger] s[k]),
    ensures
        trim_end(s) == trim_end(s.take(j)),
    decreases s.len() - j,
{
    if j < s.len() {
        assert(s.drop_last().take(j) == s.take(j));
        lemma_trim_end_take(s.drop_last(), j);
    } else {
        assert(s.take(j) == s);
    }
}

proof fn lemma_strip_take(s: Seq<char>, c: char, j: int)
    requires
        0 <= j <= s.len(),
        forall|k: int| j <= k < s.len() ==> #[trigger] s[k] == c,
    ensures
        strip_trailing(s, c) == strip_trailing(s.take(j), c),
    decreases s.len() - j,
{
    if j < s.len() {
        assert(s.drop_last().take(j) == s.take(j));
        lemma_strip_take(s.drop_last(), c, j);
    } else {
        assert(s.take(j) == s);
    }
}

fn copy_chars(s: &[char], lo: usize, hi: usize) -> (out: Vec<char>)
    requires
        lo <= hi <= s@.len(),
    ensures
        out@ == s@.subrange(lo as int, hi as int),
{
    let mut out: Vec<char> = Vec::new();
    let mut i = lo;
    while i < hi
        invariant
            lo <= i <= hi <= s@.len(),
            out@ == s@.subrange(lo as int, i as int),
        decreases hi - i,
    {
        out.push(s[i]);
        i = i + 1;
    }
    out
}

/// `s` without white space at either end, as `str::trim` does.
pub fn trim_chars(s: &[char]) -> (out: Vec<char>)
    ensures
        out@ == trim(s@),
{
    let mut lo: usize = 0;
    while lo < s.len() && is_ws_char(s[lo])
        invariant
            lo <= s@.len(),
            forall|k: int| 0 <= k < lo ==> is_ws(#[trigger] s@[k]),
        decreases s@.len() - lo,
    {
        lo = lo + 1;
    }
    proof {
        lemma_trim_start_skip(s@, lo as int);
        if lo < s@.len() {
            assert(s@.skip(lo as int)[0] == s@[lo as int]);
        }
    }
    let ghost t = s@.skip(lo as int);
    assert(trim_start(t) == t);
    let mut hi: usize = s.len();
    while hi > lo && is_ws_char(s[hi - 1])
        invariant
            lo <= hi <= s@.len(),
            forall|k: int| hi - lo <= k < t.len() ==> is_ws(#[trigger] t[k]),
            t == s@.skip(lo as int),
        decreases hi,
    {
        hi = hi - 1;
    }
    proof {
        lemma_trim_end_take(t, hi - lo);
        if hi > lo {
            assert(t.take(hi - lo).last() == s@[hi - 1]);
        }
        assert(t.take(hi - lo) == s@.subrange(lo as int, hi as int));
    }
    copy_chars(s, lo, hi)
}

/// `s` without its trailing run of `c`, as `str::trim_end_matches` does for one character.
pub fn strip_trailing_chars(s: &[char], c: char) -> (out: Vec<char>)
    ensures
        out@ == strip_trailing(s@, c),
{
    let mut hi: usize = s.len();
    while hi > 0 && s[hi - 1] == c
        invariant
            hi <= s@.len(),
            forall|k: int| hi <= k < s@.len() ==> #[trigger] s@[k] == c,
        decreases hi,
    {
        hi = hi - 1;
    }
    proof {
        lemma_strip_take(s@, c, hi as int);
        if hi > 0 {
            assert(s@.take(hi as int).last() == s@[hi - 1]);
        }
        assert(s@.take(hi as int) == s@.subrange(0, hi as int));
    }
    copy_chars(s, 0, hi)
}

/// Why text is not an unsigned integer.
#[derive(Clone, Copy, Debug, PartialEq, Eq)]
pub enum IntParseError {
    /// The text is empty.
    Empty,
    /// A character is not a decimal digit (or the text is a lone sign).
    InvalidDigit,
    /// The value is larger than the type holds.
    PosOverflow,
}

pub open spec fn is_digit(c: char) -> bool {
    '0' <= c <= '9'
}

pub open spec fn digit_value(c: char) -> nat {
    (c as nat - 48) as nat
}

/// Reads the digits `d` after the value `acc`, left to right: the first non-digit is
/// an invalid digit, and a value above `max` is an overflow, whichever comes first.
pub open spec fn scan_digits(d: Seq<char>, acc: nat, max: nat) -> Result<nat, IntParseError>
    decreases d.len(),
{
    if d.len() == 0 {
        Ok(acc)
    } else if !is_digit(d[0]) {
        Err(IntParseError::InvalidDigit)
    } else if acc * 10 + digit_value(d[0]) > max {
        Err(IntParseError::PosOverflow)
    } else {
        scan_digits(d.drop_first(), acc * 10 + digit_value(d[0]), max)
    }
}

/// What `str::parse` gives for an unsigned type whose largest value is `max`:
/// an optional leading `+`, then decimal digits.
pub open spec fn spec_parse_uint(s: Seq<char>, max: nat) -> Result<nat, IntParseError> {
    if s.len() == 0 {
        Err(IntParseError::Empty)
    } else if (s[0] == '+' || s[0] == '-') && s.len() == 1 {
        Err(IntParseError::InvalidDigit)
    } else if s[0] == '+' {
        scan_digits(s.drop_first(), 0, max)
    } else {
        scan_digits(s, 0, max)
    }
}

proof fn lemma_scan_step(d: Seq<char>, i: int, acc: nat, max: nat)
    requires
        0 <= i < d.len(),
    ensures
        scan_digits(d.skip(i), acc, max) == (if !is_digit(d[i]) {
            Err(IntParseError::InvalidDigit)
        } else if acc * 10 + digit_value(d[i]) > max {
            Err(IntParseError::PosOverflow)
        } else {
            scan_digits(d.skip(i + 1), acc * 10 + digit_value(d[i]), max)
        }),
{
    assert(d.skip(i)[0] == d[i]);
    assert(d.skip(i).drop_first() == d.skip(i + 1));
}

proof fn lemma_scan_bound(d: Seq<char>, acc: nat, max: nat)
    requires
        acc <= max,
    ensures
        scan_digits(d, acc, max) matches Ok(v) ==> v <= max,
    decreases d.len(),
{
    if d.len() > 0 && is_digit(d[0]) && acc * 10 + digit_value(d[0]) <= max {
        lemma_scan_bound(d.drop_first(), acc * 10 + digit_value(d[0]), max);
    }
}

fn parse_uint(s: &[char], max: u64) -> (res: Result<u64, IntParseError>)
    ensures
        match spec_parse_uint(s@, max as nat) {
            Ok(v) => res == Ok::<u64, IntParseError>(v as u64),
            Err(e) => res == Err::<u64, IntParseError>(e),
        },
        res matches Ok(v) ==> v <= max,
        spec_parse_uint(s@, max as nat) matches Ok(v) ==> v <= max,
{
    proof {
        lemma_scan_bound(s@, 0, max as nat);
        if s@.len() > 0 {
            lemma_scan_bound(s@.drop_first(), 0, max as nat);
        }
    }
    if s.len() == 0 {
        return Err(IntParseError::Empty);
    }
    if (s[0] == '+' || s[0] == '-') && s.len() == 1 {
        return Err(IntParseError::InvalidDigit);
    }
    let start: usize = if s[0] == '+' {
        1
    } else {
        0
    };
    let ghost d = s@.skip(start as int);
    assert(start == 1 ==> d == s@.drop_first());
    assert(start == 0 ==> d == s@);
    let mut acc: u64 = 0;
    let mut i: usize = start;
    while i < s.len()
        invariant
            start <= i <= s@.len(),
            acc <= max,
            d == s@.skip(start as int),
            spec_parse_uint(s@, max as nat) == scan_digits(s@.skip(i as int), acc as nat, max as nat),
        decreases s@.len() - i,
    {
        proof {
            lemma_scan_step(s@, i as int, acc as nat, max as nat);
        }
        let c = s[i];
        if !('0' <= c && c <= '9') {
            return Err(IntParseError::InvalidDigit);
        }
        let v = (c as u32 - 48) as u64;
        assert(v == digit_value(c));
        if v > max || acc > (max - v) / 10 {
            assert(acc * 10 + v > max) by (nonlinear_arith)
                requires
                    v > max || acc > (max - v) / 10,
                    v <= max ==> acc > (max - v) / 10 || v > max,
            ;
            return Err(IntParseError::PosOverflow);
        }
        assert(acc * 10 + v <= max) by (nonlinear_arith)
            requires
                v <= max,
                acc <= (max - v) / 10,
        ;
        acc = acc * 10 + v;
        i = i + 1;
    }
    assert(s@.skip(i as int).len() == 0);
    Ok(acc)
}

proof fn lemma_digit_char(d: nat)
    requires
        d < 10,
    ensures
        is_digit(digit_char(d)),
        digit_value(digit_char(d)) == d,
        digit_char(d) != '+' && digit_char(d) != '-',
{
    assert((48 + d) as char as nat == 48 + d);
}

proof fn lemma_scan_push(s: Seq<char>, c: char, acc: nat, max: nat, v: nat)
    requires
        scan_digits(s, acc, max) == Ok::<nat, IntParseError>(v),
        is_digit(c),
        v * 10 + digit_value(c) <= max,
    ensures
        scan_digits(s.push(c), acc, max) == Ok::<nat, IntParseError>(v * 10 + digit_value(c)),
    decreases s.len(),
{
    if s.len() == 0 {
        assert(s.push(c)[0] == c);
        assert(s.push(c).drop_first().len() == 0);
        reveal_with_fuel(scan_digits, 2);
    } else {
        assert(s.push(c)[0] == s[0]);
        assert(s.push(c).drop_first() == s.drop_first().push(c));
        lemma_scan_push(s.drop_first(), c, acc * 10 + digit_value(s[0]), max, v);
    }
}

proof fn lemma_scan_decimal(n: nat, max: nat)
    requires
        n <= max,
    ensures
        scan_digits(decimal(n), 0, max) == Ok::<nat, IntParseError>(n),
        decimal(n).len() > 0,
        is_digit(decimal(n)[0]),
    decreases n,
{
    if n < 10 {
        lemma_digit_char(n);
        let s = decimal(n);
        assert(s == seq![digit_char(n)]);
        assert(s.drop_first().len() == 0);
        reveal_with_fuel(scan_digits, 2);
    } else {
        lemma_scan_decimal(n / 10, max);
        lemma_digit_char(n % 10);
        assert((n / 10) * 10 + n % 10 == n);
        lemma_scan_push(decimal(n / 10), digit_char(n % 10), 0, max, n / 10);
        assert(decimal(n)[0] == decimal(n / 10)[0]);
    }
}

/// Decimal text reads back as the number it was written from: parsing the text
/// that `u32_to_string` writes for `n` gives `n` back, for any type holding `n`.
pub proof fn lemma_parse_decimal(n: nat, max: nat)
    requires
        n <= max,
    ensures
        spec_parse_uint(decimal(n), max) == Ok::<nat, IntParseError>(n),
{
    lemma_scan_decimal(n, max);
}

/// Parses decimal text as `u32`, as `str::parse::<u32>` does.
pub fn parse_u32(s: &[char]) -> (res: Result<u32, IntParseError>)
    ensures
        match spec_parse_uint(s@, u32::MAX as nat) {
            Ok(v) => res == Ok::<u32, IntParseError>(v as u32),
            Err(e) => res == Err::<u32, IntParseError>(e),
        },
        spec_parse_uint(s@, u32::MAX as nat) matches Ok(v) ==> v <= u32::MAX,
{
    match parse_uint(s, u32::MAX as u64) {
        Ok(v) => Ok(v as u32),
        Err(e) => Err(e),
    }
}

/// Parses decimal text as `u16`, as `str::parse::<u16>` does.
pub fn parse_u16(s: &[char]) -> (res: Result<u16, IntParseError>)
    ensures
        match spec_parse_uint(s@, u16::MAX as nat) {
            Ok(v) => res == Ok::<u16, IntParseError>(v as u16),
            Err(e) => res == Err::<u16, IntParseError>(e),
        },
        spec_parse_uint(s@, u16::MAX as nat) matches Ok(v) ==> v <= u16::MAX,
{
    match parse_uint(s, u16::MAX as u64) {
        Ok(v) => Ok(v as u16),
        Err(e) => Err(e),
    }
}

} // verus!
