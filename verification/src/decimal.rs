use vstd::prelude::*;
use crate::text::{ascii_lowercase, to_ascii_lowercase};


verus! {

pub open spec fn is_digit(c: char) -> bool {
    '0' <= c && c <= '9'
}

/// The number that a decimal digit stands for.
pub open spec fn digit_value(c: char) -> nat {
    (c as u32 - '0' as u32) as nat
}

pub open spec fn all_digits(s: Seq<char>) -> bool {
    forall|i: int| 0 <= i < s.len() ==> is_digit(#[trigger] s[i])
}

/// The number that a run of decimal digits spells, most significant first.
pub open spec fn decimal_value(s: Seq<char>) -> nat
    decreases s.len(),
{
    if s.len() == 0 {
        0
    } else {
        decimal_value(s.drop_last()) * 10 + digit_value(s.last())
    }
}

/// The text after an optional sign.
pub open spec fn unsigned_part(s: Seq<char>) -> Seq<char> {
    if s.len() > 0 && (s[0] == '+' || s[0] == '-') {
        s.drop_first()
    } else {
        s
    }
}

/// What `str::parse` gives for a signed integer type with the given
/// bounds: an optional sign, then at least one digit and nothing else, and
/// a value within the bounds.
pub open spec fn parse_signed(s: Seq<char>, min: int, max: int) -> Option<int> {
    let digits = unsigned_part(s);
    let magnitude = decimal_value(digits) as int;
    let value = if s.len() > 0 && s[0] == '-' {
        -magnitude
    } else {
        magnitude
    };
    if digits.len() > 0 && all_digits(digits) && min <= value <= max {
        Some(value)
    } else {
        None
    }
}

/// What `str::parse` gives for an unsigned integer type with the given
/// maximum: an optional `+`, then at least one digit and nothing else, and
/// a value that does not exceed the maximum.
pub open spec fn parse_unsigned(s: Seq<char>, max: int) -> Option<int> {
    if s.len() > 0 && s[0] == '-' {
        None
    } else {
        parse_signed(s, 0, max)
    }
}

/// A longer run of digits spells at least as much as any of its beginnings.
pub proof fn lemma_decimal_value_grows(s: Seq<char>, i: int)
    requires
        0 <= i <= s.len(),
    ensures
        decimal_value(s.take(i)) <= decimal_value(s),
    decreases s.len() - i,
{
    if i == s.len() {
        assert(s.take(i) == s);
    } else {
        lemma_decimal_value_grows(s, i + 1);
        assert(s.take(i + 1).drop_last() == s.take(i));
    }
}

/// The value of the digits `chars[from..]`, or `None` where one of them is
/// no digit, there is none, or the value exceeds `u64::MAX`.
fn parse_digits(chars: &Vec<char>, from: usize) -> (value: Option<u64>)
    requires
        from <= chars.len(),
    ensures
        value == parse_unsigned_digits(chars@.skip(from as int)),
{
    let ghost digits = chars@.skip(from as int);
    if from == chars.len() {
        return None;
    }
    let mut acc: u64 = 0;
    let mut i: usize = from;
    assert(digits.take(0) =~= Seq::<char>::empty());
    while i < chars.len()
        invariant
            from <= i <= chars.len(),
            digits == chars@.skip(from as int),
            all_digits(digits.take(i - from)),
            acc == decimal_value(digits.take(i - from)),
        decreases chars.len() - i,
    {
        let c = chars[i];
        if !(c >= '0' && c <= '9') {
            assert(!is_digit(digits[i - from]));
            return None;
        }
        let d: u64 = (c as u32 - '0' as u32) as u64;
        assert(digits.take(i - from + 1).drop_last() == digits.take(i - from));
        assert(digits.take(i - from + 1).last() == c);
        if acc > (u64::MAX - d) / 10 {
            proof {
                lemma_decimal_value_grows(digits, i - from + 1);
            }
            return None;
        }
        acc = acc * 10 + d;
        i += 1;
    }
    assert(digits.take(i - from) == digits);
    Some(acc)
}

/// The value of a non-empty run of digits that fits a `u64`.
pub open spec fn parse_unsigned_digits(digits: Seq<char>) -> Option<u64> {
    if digits.len() > 0 && all_digits(digits) && decimal_value(digits) <= u64::MAX {
        Some(decimal_value(digits) as u64)
    } else {
        None
    }
}

/// Reads an unsigned decimal integer as `str::parse::<u64>` does.
pub fn parse_u64(chars: &Vec<char>) -> (value: Option<u64>)
    ensures
        match parse_unsigned(chars@, u64::MAX as int) {
            Some(v) => value == Some(v as u64),
            None => value.is_none(),
        },
{
    if chars.len() > 0 && chars[0] == '-' {
        return None;
    }
    let from: usize = if chars.len() > 0 && chars[0] == '+' {
        1
    } else {
        0
    };
    assert(chars@.skip(0) == chars@);
    assert(chars@.skip(1) == chars@.drop_first());
    parse_digits(chars, from)
}

/// Reads a signed decimal integer as `str::parse::<i64>` does.
pub fn parse_i64(chars: &Vec<char>) -> (value: Option<i64>)
    ensures
        match parse_signed(chars@, i64::MIN as int, i64::MAX as int) {
            Some(v) => value == Some(v as i64),
            None => value.is_none(),
        },
{
    let negative = chars.len() > 0 && chars[0] == '-';
    let from: usize = if chars.len() > 0 && (chars[0] == '+' || chars[0] == '-') {
        1
    } else {
        0
    };
    assert(chars@.skip(0) == chars@);
    assert(chars@.skip(1) == chars@.drop_first());
    match parse_digits(chars, from) {
        None => None,
        Some(magnitude) => {
            if negative {
                if magnitude > 0x8000_0000_0000_0000u64 {
                    None
                } else if magnitude == 0x8000_0000_0000_0000u64 {
                    Some(i64::MIN)
                } else {
                    Some(-(magnitude as i64))
                }
            } else if magnitude > 0x7fff_ffff_ffff_ffffu64 {
                None
            } else {
                Some(magnitude as i64)
            }
        },
    }
}

/// The character of a decimal digit.
pub open spec fn digit_char(d: nat) -> char
    recommends
        d < 10,
{
    (('0' as u8) + (d as u8)) as char
}

/// The decimal digits of a natural number, without leading zeros.
pub open spec fn decimal_digits(n: nat) -> Seq<char>
    decreases n,
{
    if n < 10 {
        seq![digit_char(n)]
    } else {
        decimal_digits(n / 10).push(digit_char(n % 10))
    }
}

/// The decimal text of an integer, as `Display` writes it: a `-` before a
/// negative number, no sign otherwise.
pub open spec fn decimal_text(n: int) -> Seq<char> {
    if n < 0 {
        seq!['-'] + decimal_digits((-n) as nat)
    } else {
        decimal_digits(n as nat)
    }
}

/// Writes a natural number in decimal.
pub fn u128_to_chars(n: u128) -> (text: Vec<char>)
    ensures
        text@ == decimal_digits(n as nat),
{
    let mut magnitude: u128 = n;
    // the digits, least significant first
    let mut reversed: Vec<char> = Vec::new();
    while magnitude >= 10
        invariant
            decimal_digits(n as nat) == decimal_digits(magnitude as nat) + reversed@.reverse(),
        decreases magnitude,
    {
        let d: u8 = (magnitude % 10) as u8;
        let ghost before = reversed@;
        reversed.push((('0' as u8) + d) as char);
        assert(reversed@.reverse() =~= seq![digit_char((magnitude % 10) as nat)]
            + before.reverse());
        assert(decimal_digits(magnitude as nat) == decimal_digits((magnitude / 10) as nat).push(
            digit_char((magnitude % 10) as nat),
        ));
        assert(decimal_digits((magnitude / 10) as nat).push(digit_char((magnitude % 10) as nat))
            + before.reverse() =~= decimal_digits((magnitude / 10) as nat) + reversed@.reverse());
        magnitude = magnitude / 10;
    }
    let ghost before = reversed@;
    reversed.push((('0' as u8) + (magnitude as u8)) as char);
    assert(reversed@.reverse() =~= seq![digit_char(magnitude as nat)] + before.reverse());
    assert(decimal_digits(n as nat) =~= reversed@.reverse());
    let mut text: Vec<char> = Vec::new();
    let mut i: usize = reversed.len();
    while i > 0
        invariant
            i <= reversed.len(),
            text@ == reversed@.reverse().take(reversed.len() - i),
        decreases i,
    {
        i -= 1;
        text.push(reversed[i]);
        assert(reversed@.reverse().take(reversed.len() - i) =~= reversed@.reverse().take(
            reversed.len() - i - 1,
        ).push(reversed@[i as int]));
    }
    assert(reversed@.reverse().take(reversed.len() as int) == reversed@.reverse());
    text
}

/// Writes a natural number in decimal.
pub fn u64_to_chars(n: u64) -> (text: Vec<char>)
    ensures
        text@ == decimal_digits(n as nat),
{
    u128_to_chars(n as u128)
}

/// Writes an integer in decimal.
pub fn i64_to_chars(n: i64) -> (text: Vec<char>)
    ensures
        text@ == decimal_text(n as int),
{
    if n < 0 {
        let magnitude: u64 = if n == i64::MIN {
            0x8000_0000_0000_0000u64
        } else {
            (-n) as u64
        };
        let digits = u64_to_chars(magnitude);
        let mut text: Vec<char> = Vec::new();
        text.push('-');
        crate::text::push_chars(&mut text, &digits, 0, digits.len());
        assert(digits@.subrange(0, digits.len() as int) == digits@);
        assert(text@ =~= seq!['-'] + digits@);
        text
    } else {
        u64_to_chars(n as u64)
    }
}

/// How many digits the text begins with.
pub open spec fn digit_run(s: Seq<char>) -> nat
    decreases s.len(),
{
    if s.len() > 0 && is_digit(s[0]) {
        1 + digit_run(s.drop_first())
    } else {
        0
    }
}

/// An exponent: `e` or `E`, an optional sign, then digits to the end.
pub open spec fn is_exponent(s: Seq<char>) -> bool {
    &&& s.len() > 0
    &&& (s[0] == 'e' || s[0] == 'E')
    &&& unsigned_part(s.drop_first()).len() > 0
    &&& all_digits(unsigned_part(s.drop_first()))
}

/// An unsigned decimal number: digits with at most one point among them,
/// at least one digit in all, and an optional exponent.
pub open spec fn is_number(s: Seq<char>) -> bool {
    let int_len = digit_run(s);
    let after_int = s.skip(int_len as int);
    let has_point = after_int.len() > 0 && after_int[0] == '.';
    let fraction = if has_point {
        after_int.drop_first()
    } else {
        after_int
    };
    let frac_len = if has_point {
        digit_run(fraction)
    } else {
        0
    };
    let tail = fraction.skip(frac_len as int);
    int_len + frac_len > 0 && (tail.len() == 0 || is_exponent(tail))
}

/// The texts that `str::parse` reads as a floating-point number: an
/// optional sign, then `inf`, `infinity` or `nan` in any case of letters,
/// or a decimal number.
pub open spec fn is_float_literal(s: Seq<char>) -> bool {
    let body = unsigned_part(s);
    let lower = ascii_lowercase(body);
    lower == seq!['i', 'n', 'f'] || lower == seq!['i', 'n', 'f', 'i', 'n', 'i', 't', 'y'] || lower
        == seq!['n', 'a', 'n'] || is_number(body)
}

/// The index after the digits that `chars[from..]` begins with.
fn skip_digits(chars: &Vec<char>, from: usize) -> (end: usize)
    requires
        from <= chars.len(),
    ensures
        from <= end <= chars.len(),
        end - from == digit_run(chars@.skip(from as int)),
{
    let mut i: usize = from;
    while i < chars.len() && chars[i] >= '0' && chars[i] <= '9'
        invariant
            from <= i <= chars.len(),
            digit_run(chars@.skip(from as int)) == (i - from) + digit_run(chars@.skip(i as int)),
        decreases chars.len() - i,
    {
        assert(chars@.skip(i as int).drop_first() == chars@.skip(i + 1));
        i += 1;
    }
    i
}

/// Whether `chars[from..]` is made of digits only (none counts too).
fn digits_to_end(chars: &Vec<char>, from: usize) -> (all: bool)
    requires
        from <= chars.len(),
    ensures
        all == all_digits(chars@.skip(from as int)),
{
    let mut i: usize = from;
    while i < chars.len()
        invariant
            from <= i <= chars.len(),
            forall|j: int| 0 <= j < i - from ==> is_digit(#[trigger] chars@.skip(from as int)[j]),
        decreases chars.len() - i,
    {
        if !(chars[i] >= '0' && chars[i] <= '9') {
            assert(!is_digit(chars@.skip(from as int)[i - from]));
            return false;
        }
        i += 1;
    }
    true
}

fn is_exponent_at(chars: &Vec<char>, from: usize) -> (ok: bool)
    requires
        from < chars.len(),
    ensures
        ok == is_exponent(chars@.skip(from as int)),
{
    let ghost tail = chars@.skip(from as int);
    if !(chars[from] == 'e' || chars[from] == 'E') {
        return false;
    }
    assert(tail.drop_first() == chars@.skip(from + 1));
    let mut at: usize = from + 1;
    if at < chars.len() && (chars[at] == '+' || chars[at] == '-') {
        assert(chars@.skip(from + 1).drop_first() == chars@.skip(from + 2));
        at += 1;
    }
    at < chars.len() && digits_to_end(chars, at)
}

fn is_number_at(chars: &Vec<char>, from: usize) -> (ok: bool)
    requires
        from <= chars.len(),
    ensures
        ok == is_number(chars@.skip(from as int)),
{
    let ghost s = chars@.skip(from as int);
    let int_end = skip_digits(chars, from);
    assert(s.skip(int_end - from) == chars@.skip(int_end as int));
    let has_point = int_end < chars.len() && chars[int_end] == '.';
    let frac_start: usize = if has_point {
        int_end + 1
    } else {
        int_end
    };
    assert(has_point ==> chars@.skip(int_end as int).drop_first() == chars@.skip(frac_start as int));
    let frac_end: usize = if has_point {
        skip_digits(chars, frac_start)
    } else {
        frac_start
    };
    assert(chars@.skip(frac_start as int).skip(frac_end - frac_start) == chars@.skip(
        frac_end as int,
    ));
    if (int_end - from) + (frac_end - frac_start) == 0 {
        return false;
    }
    frac_end == chars.len() || is_exponent_at(chars, frac_end)
}

/// Whether the text is one that `str::parse` reads as a floating-point
/// number.
pub fn is_float_text(chars: &Vec<char>) -> (ok: bool)
    ensures
        ok == is_float_literal(chars@),
{
    let from: usize = if chars.len() > 0 && (chars[0] == '+' || chars[0] == '-') {
        1
    } else {
        0
    };
    assert(chars@.skip(0) == chars@);
    assert(chars@.skip(1) == chars@.drop_first());
    let mut body: Vec<char> = Vec::new();
    crate::text::push_chars(&mut body, chars, from, chars.len());
    assert(body@ == chars@.skip(from as int));
    let lower = to_ascii_lowercase(&body);
    let inf = vec!['i', 'n', 'f'];
    let infinity = vec!['i', 'n', 'f', 'i', 'n', 'i', 't', 'y'];
    let nan = vec!['n', 'a', 'n'];
    if vec_eq(&lower, &inf) || vec_eq(&lower, &infinity) || vec_eq(&lower, &nan) {
        return true;
    }
    is_number_at(chars, from)
}

/// Whether two character vectors hold the same text.
pub fn vec_eq(a: &Vec<char>, b: &Vec<char>) -> (same: bool)
    ensures
        same == (a@ == b@),
{
    if a.len() != b.len() {
        return false;
    }
    let mut i: usize = 0;
    while i < a.len()
        invariant
            i <= a.len(),
            a.len() == b.len(),
            forall|j: int| 0 <= j < i ==> a@[j] == b@[j],
        decreases a.len() - i,
    {
        if a[i] != b[i] {
            return false;
        }
        i += 1;
    }
    assert(a@ =~= b@);
    true
}


/// The digits of a number are digits, and spell the number.
pub proof fn lemma_decimal_digits(n: nat)
    ensures
        decimal_digits(n).len() > 0,
        all_digits(decimal_digits(n)),
        decimal_value(decimal_digits(n)) == n,
    decreases n,
{
    if n < 10 {
        let s = seq![digit_char(n)];
        assert(s.drop_last() =~= Seq::<char>::empty());
        assert(is_digit(digit_char(n)));
        assert(digit_value(digit_char(n)) == n);
        assert(decimal_value(s) == decimal_value(s.drop_last()) * 10 + digit_value(s.last()));
    } else {
        lemma_decimal_digits(n / 10);
        let head = decimal_digits(n / 10);
        let s = head.push(digit_char(n % 10));
        assert(s.drop_last() =~= head);
        assert(is_digit(digit_char(n % 10)));
        assert(digit_value(digit_char(n % 10)) == n % 10);
        assert(decimal_value(s) == decimal_value(s.drop_last()) * 10 + digit_value(s.last()));
    }
}

/// The decimal text of an integer reads as that integer: it is a `-` or
/// nothing, then digits.
pub proof fn lemma_parse_decimal_text(n: int)
    ensures
        parse_signed(decimal_text(n), n, n) == Some(n),
        decimal_text(n).len() > 0,
        forall|i: int|
            0 <= i < decimal_text(n).len() ==> is_digit(#[trigger] decimal_text(n)[i])
                || decimal_text(n)[i] == '-',
        is_digit(decimal_text(n).last()),
{
    if n < 0 {
        let digits = decimal_digits((-n) as nat);
        lemma_decimal_digits((-n) as nat);
        let text = seq!['-'] + digits;
        assert(text[0] == '-');
        assert(text.drop_first() =~= digits);
        assert(text.last() == digits.last());
    } else {
        let digits = decimal_digits(n as nat);
        lemma_decimal_digits(n as nat);
        assert(is_digit(digits[0]));
    }
}

} // verus!
