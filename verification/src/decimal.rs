//! Decimal text: the grammar of numeric input and the text shown for a number.

use vstd::prelude::*;
use vstd::string::StringSliceAdditionalSpecFns;

verus! {

/// The byte of the character `0`.
const ZERO: u8 = 48;

/// The byte of the character `9`.
const NINE: u8 = 57;

/// The byte of the character `+`.
const PLUS: u8 = 43;

/// The byte of the character `-`.
const MINUS: u8 = 45;

/// How far the smallest `i32` lies below zero.
const MAGNITUDE_OF_MIN: u64 = 2147483648;

/// `c` is one of the ten ASCII digits.
pub open spec fn is_digit(c: char) -> bool {
    '0' <= c <= '9'
}

/// The number that the digit `c` stands for.
pub open spec fn digit_value(c: char) -> int {
    c as int - '0' as int
}

/// The digit that stands for `d`, for `0 <= d <= 9`.
pub open spec fn digit_char(d: int) -> char {
    (d + '0' as int) as char
}

/// Every character of `s` is a digit.
pub open spec fn all_digits(s: Seq<char>) -> bool {
    forall|i: int| 0 <= i < s.len() ==> is_digit(#[trigger] s[i])
}

/// The number written by the digits `s`, most significant digit first.
pub open spec fn digits_value(s: Seq<char>) -> int
    decreases s.len(),
{
    if s.len() == 0 {
        0
    } else {
        digits_value(s.drop_last()) * 10 + digit_value(s.last())
    }
}

/// What is left of `s` after an optional leading `+`.
pub open spec fn without_plus(s: Seq<char>) -> Seq<char> {
    if s.len() > 0 && s[0] == '+' {
        s.subrange(1, s.len() as int)
    } else {
        s
    }
}

/// The number that `s` writes as unsigned decimal text: an optional `+`
/// followed by one or more digits. `None` for any other text.
pub open spec fn unsigned_text_value(s: Seq<char>) -> Option<int> {
    let body = without_plus(s);
    if body.len() > 0 && all_digits(body) {
        Some(digits_value(body))
    } else {
        None
    }
}

/// The number that `s` writes as signed decimal text: an optional `+` or `-`
/// followed by one or more digits. `None` for any other text.
pub open spec fn signed_text_value(s: Seq<char>) -> Option<int> {
    if s.len() > 0 && s[0] == '-' {
        let body = s.subrange(1, s.len() as int);
        if body.len() > 0 && all_digits(body) {
            Some(-digits_value(body))
        } else {
            None
        }
    } else {
        unsigned_text_value(s)
    }
}

/// The decimal digits of `n`, without leading zeros.
pub open spec fn natural_text(n: nat) -> Seq<char>
    decreases n,
{
    if n < 10 {
        seq![digit_char(n as int)]
    } else {
        natural_text(n / 10).push(digit_char((n % 10) as int))
    }
}

/// The decimal text of `v`: a `-` for a negative number, then its digits.
pub open spec fn integer_text(v: int) -> Seq<char> {
    if v < 0 {
        seq!['-'] + natural_text((-v) as nat)
    } else {
        natural_text(v as nat)
    }
}

/// The number that `s` writes, where it is signed decimal text for a number
/// that an `i32` holds.
pub open spec fn i32_text_value(s: Seq<char>) -> Option<i32> {
    match signed_text_value(s) {
        Some(v) if i32::MIN <= v <= i32::MAX => Some(v as i32),
        _ => None,
    }
}

/// The number that `s` writes, where it is unsigned decimal text for a number
/// that a `u16` holds.
pub open spec fn u16_text_value(s: Seq<char>) -> Option<u16> {
    match unsigned_text_value(s) {
        Some(v) if v <= u16::MAX => Some(v as u16),
        _ => None,
    }
}

/// The number that `s` writes, where it is unsigned decimal text for a number
/// that a `usize` holds.
pub open spec fn usize_text_value(s: Seq<char>) -> Option<usize> {
    match unsigned_text_value(s) {
        Some(v) if v <= usize::MAX => Some(v as usize),
        _ => None,
    }
}

proof fn lemma_digit_char(d: int)
    requires
        0 <= d <= 9,
    ensures
        is_digit(digit_char(d)),
        digit_value(digit_char(d)) == d,
{
}

proof fn lemma_value_push(s: Seq<char>, c: char)
    ensures
        digits_value(s.push(c)) == digits_value(s) * 10 + digit_value(c),
        all_digits(s) && is_digit(c) ==> all_digits(s.push(c)),
{
    assert(s.push(c).drop_last() =~= s);
}

proof fn lemma_value_nonnegative(s: Seq<char>)
    requires
        all_digits(s),
    ensures
        digits_value(s) >= 0,
    decreases s.len(),
{
    if s.len() > 0 {
        lemma_value_nonnegative(s.drop_last());
    }
}

/// The digits read so far never stand for more than the whole text does.
proof fn lemma_prefix_value(s: Seq<char>, k: int)
    requires
        all_digits(s),
        0 <= k <= s.len(),
    ensures
        0 <= digits_value(s.subrange(0, k)) <= digits_value(s),
    decreases s.len() - k,
{
    if k == s.len() {
        assert(s.subrange(0, k) =~= s);
        lemma_value_nonnegative(s);
    } else {
        lemma_prefix_value(s, k + 1);
        let longer = s.subrange(0, k + 1);
        assert(longer.drop_last() =~= s.subrange(0, k));
        lemma_value_nonnegative(s.subrange(0, k));
    }
}

/// Reads the digits that `s` holds from position `start` to its end, as long as
/// the number stays within `limit`.
fn parse_digits(s: &str, start: usize, limit: u64) -> (r: Option<u64>)
    requires
        s.is_ascii(),
        start <= s@.len(),
    ensures
        ({
            let body = s@.subrange(start as int, s@.len() as int);
            match r {
                Some(v) => body.len() > 0 && all_digits(body) && digits_value(body) == v && v
                    <= limit,
                None => !(body.len() > 0 && all_digits(body) && digits_value(body) <= limit),
            }
        }),
{
    broadcast use vstd::string::is_ascii_spec_bytes;

    let bytes: &[u8] = s.as_bytes();
    let n: usize = bytes.len();
    if start >= n {
        return None;
    }
    let ghost body = s@.subrange(start as int, n as int);
    let mut acc: u64 = 0;
    let mut i: usize = start;
    while i < n
        invariant
            s.is_ascii(),
            bytes@ == s.spec_bytes(),
            start <= i <= n,
            n == s@.len(),
            body == s@.subrange(start as int, n as int),
            all_digits(body.subrange(0, i - start)),
            acc == digits_value(body.subrange(0, i - start)),
            acc <= limit,
        decreases n - i,
    {
        let b: u8 = bytes[i];
        let ghost c = s@[i as int];
        let ghost seen = body.subrange(0, i - start);
        assert(c == body[i - start]);
        assert(b == c as u8);
        assert(body.subrange(0, i + 1 - start) =~= seen.push(c));
        if b < ZERO || b > NINE {
            assert(!is_digit(c));
            return None;
        }
        let d: u64 = (b - ZERO) as u64;
        proof {
            assert(is_digit(c));
            assert(d == digit_value(c));
            lemma_value_push(seen, c);
        }
        if limit < d || acc > (limit - d) / 10 {
            proof {
                if all_digits(body) {
                    lemma_prefix_value(body, i + 1 - start);
                }
            }
            return None;
        }
        acc = acc * 10 + d;
        i = i + 1;
    }
    assert(body.subrange(0, i - start) =~= body);
    Some(acc)
}

/// A text with a character outside ASCII writes no number.
proof fn lemma_not_ascii_no_value(s: Seq<char>)
    requires
        !vstd::utf8::is_ascii_chars(s),
    ensures
        signed_text_value(s) is None,
        unsigned_text_value(s) is None,
{
    let i = choose|i: int| 0 <= i < s.len() && !('\0' <= #[trigger] s[i] <= '\u{7f}');
    assert(!is_digit(s[i]));
    if i > 0 {
        assert(s.subrange(1, s.len() as int)[i - 1] == s[i]);
    }
}

/// Reads unsigned decimal text for a number up to `limit`.
fn parse_unsigned(s: &str, limit: u64) -> (r: Option<u64>)
    ensures
        match r {
            Some(v) => unsigned_text_value(s@) == Some(v as int) && v <= limit,
            None => !(unsigned_text_value(s@) matches Some(v) && v <= limit),
        },
{
    broadcast use vstd::string::is_ascii_spec_bytes;

    if !s.is_ascii() {
        proof {
            lemma_not_ascii_no_value(s@);
        }
        return None;
    }
    if s.is_empty() {
        return None;
    }
    let first: u8 = s.get_ascii(0);
    let start: usize = if first == PLUS { 1 } else { 0 };
    assert(without_plus(s@) =~= s@.subrange(start as int, s@.len() as int));
    parse_digits(s, start, limit)
}

/// Reads a `u16` from unsigned decimal text: an optional `+`, then digits.
pub fn parse_u16(s: &str) -> (r: Option<u16>)
    ensures
        r == u16_text_value(s@),
{
    match parse_unsigned(s, u16::MAX as u64) {
        Some(v) => Some(v as u16),
        None => None,
    }
}

/// Reads a `usize` from unsigned decimal text: an optional `+`, then digits.
pub fn parse_usize(s: &str) -> (r: Option<usize>)
    ensures
        r == usize_text_value(s@),
{
    match parse_unsigned(s, usize::MAX as u64) {
        Some(v) => Some(v as usize),
        None => None,
    }
}

/// Reads an `i32` from signed decimal text: an optional `+` or `-`, then
/// digits.
pub fn parse_i32(s: &str) -> (r: Option<i32>)
    ensures
        r == i32_text_value(s@),
{
    broadcast use vstd::string::is_ascii_spec_bytes;

    if !s.is_ascii() {
        proof {
            lemma_not_ascii_no_value(s@);
        }
        return None;
    }
    if s.is_empty() {
        return None;
    }
    let first: u8 = s.get_ascii(0);
    if first == MINUS {
        match parse_digits(s, 1, MAGNITUDE_OF_MIN) {
            Some(m) => {
                if m == MAGNITUDE_OF_MIN {
                    Some(i32::MIN)
                } else {
                    Some(-(m as i32))
                }
            },
            None => None,
        }
    } else {
        match parse_unsigned(s, i32::MAX as u64) {
            Some(v) => Some(v as i32),
            None => None,
        }
    }
}

/// What is taken on trust of `String::push` of the standard library, as its
/// documentation has it: the string afterwards holds the characters it held
/// before, followed by `c`. Nothing here proves it.
pub assume_specification[ String::push ](s: &mut String, c: char)
    ensures
        final(s)@ == old(s)@.push(c),
;

/// The digits of a number are digits, and they write that number.
pub proof fn lemma_natural_text(n: nat)
    ensures
        natural_text(n).len() > 0,
        all_digits(natural_text(n)),
        digits_value(natural_text(n)) == n,
    decreases n,
{
    if n < 10 {
        lemma_digit_char(n as int);
        lemma_value_push(Seq::empty(), digit_char(n as int));
        assert(natural_text(n) =~= Seq::<char>::empty().push(digit_char(n as int)));
    } else {
        lemma_natural_text(n / 10);
        lemma_digit_char((n % 10) as int);
        lemma_value_push(natural_text(n / 10), digit_char((n % 10) as int));
    }
}

/// Reading the text of a number gives the number back: as signed text for
/// every integer, as unsigned text for every integer that is not negative.
pub proof fn lemma_text_round_trip(v: int)
    ensures
        signed_text_value(integer_text(v)) == Some(v),
        v >= 0 ==> unsigned_text_value(integer_text(v)) == Some(v),
{
    if v < 0 {
        let digits = natural_text((-v) as nat);
        lemma_natural_text((-v) as nat);
        let text = integer_text(v);
        assert(text.subrange(1, text.len() as int) =~= digits);
    } else {
        let digits = natural_text(v as nat);
        lemma_natural_text(v as nat);
        assert(is_digit(digits[0]));
    }
}

/// Reading the text of a `u16` or of an `i32` gives the number back.
pub proof fn lemma_field_text_round_trip(year: i32, count: u16)
    ensures
        i32_text_value(integer_text(year as int)) == Some(year),
        u16_text_value(integer_text(count as int)) == Some(count),
{
    lemma_text_round_trip(year as int);
    lemma_text_round_trip(count as int);
}

/// Appends the digits of `n` to `out`.
fn push_natural(out: &mut String, n: u64)
    ensures
        final(out)@ == old(out)@ + natural_text(n as nat),
    decreases n,
{
    if n >= 10 {
        push_natural(out, n / 10);
    }
    let d: u8 = (n % 10) as u8;
    out.push((d + ZERO) as char);
    proof {
        if n >= 10 {
            assert(old(out)@ + natural_text(n as nat) =~= (old(out)@ + natural_text(
                (n / 10) as nat,
            )).push(digit_char((n % 10) as int)));
        } else {
            assert(old(out)@ + natural_text(n as nat) =~= old(out)@.push(digit_char(n as int)));
        }
    }
}

/// The decimal text of a year.
pub fn format_i32(v: i32) -> (r: String)
    ensures
        r@ == integer_text(v as int),
{
    let mut out = String::new();
    if v < 0 {
        out.push('-');
        push_natural(&mut out, (-(v as i64)) as u64);
        assert(out@ =~= integer_text(v as int));
    } else {
        push_natural(&mut out, v as u64);
        assert(out@ =~= integer_text(v as int));
    }
    out
}

/// The decimal text of a track count.
pub fn format_u16(v: u16) -> (r: String)
    ensures
        r@ == integer_text(v as int),
{
    let mut out = String::new();
    push_natural(&mut out, v as u64);
    assert(out@ =~= integer_text(v as int));
    out
}

} // verus!
