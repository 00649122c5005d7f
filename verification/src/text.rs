//! Text helpers: comparing strings and the decimal encoding of the counter.

use vstd::prelude::*;
use vstd::string::*;
use vstd::utf8::*;

verus! {

/// Whether two strings hold the same characters.
pub fn str_eq(a: &str, b: &str) -> (same: bool)
    ensures
        same == (a@ == b@),
{
    let x = a.as_bytes();
    let y = b.as_bytes();
    proof {
        // A string is determined by its UTF-8 encoding.
        encode_utf8_decode_utf8(a@);
        encode_utf8_decode_utf8(b@);
    }
    if x.len() != y.len() {
        return false;
    }
    let mut i: usize = 0;
    while i < x.len()
        invariant
            i <= x.len(),
            x.len() == y.len(),
            x@ == encode_utf8(a@),
            y@ == encode_utf8(b@),
            forall|j: int| 0 <= j < i ==> x@[j] == y@[j],
        decreases x.len() - i,
    {
        if x[i] != y[i] {
            return false;
        }
        i += 1;
    }
    assert(x@ =~= y@);
    true
}

/// Whether `c` is a decimal digit.
pub open spec fn is_digit(c: char) -> bool {
    '0' <= c <= '9'
}

/// The number that the digit `c` stands for.
pub open spec fn digit_value(c: char) -> int {
    c as int - 48
}

/// The digit that stands for `d`, where `0 <= d <= 9`.
pub open spec fn digit_char(d: int) -> char {
    if d == 0 {
        '0'
    } else if d == 1 {
        '1'
    } else if d == 2 {
        '2'
    } else if d == 3 {
        '3'
    } else if d == 4 {
        '4'
    } else if d == 5 {
        '5'
    } else if d == 6 {
        '6'
    } else if d == 7 {
        '7'
    } else if d == 8 {
        '8'
    } else {
        '9'
    }
}

/// Whether every character of `text` is a decimal digit.
pub open spec fn all_digits(text: Seq<char>) -> bool {
    forall|i: int| 0 <= i < text.len() ==> is_digit(#[trigger] text[i])
}

/// The number that a run of digits writes, most significant digit first.
pub open spec fn digits_value(digits: Seq<char>) -> int
    decreases digits.len(),
{
    if digits.len() == 0 {
        0
    } else {
        digits_value(digits.drop_last()) * 10 + digit_value(digits.last())
    }
}

/// The digits of `n`, most significant first, with no leading zero (and `0` for zero).
pub open spec fn decimal_digits(n: nat) -> Seq<char>
    decreases n,
{
    if n < 10 {
        seq![digit_char(n as int)]
    } else {
        decimal_digits(n / 10).push(digit_char((n % 10) as int))
    }
}

/// The decimal text of `value`: a minus sign for a negative number, then its digits.
pub open spec fn encode_decimal(value: int) -> Seq<char> {
    if value < 0 {
        seq!['-'] + decimal_digits((-value) as nat)
    } else {
        decimal_digits(value as nat)
    }
}

/// The integer that `text` writes: an optional `+` or `-`, then one or more
/// decimal digits, and nothing else. `None` for any other text.
pub open spec fn parse_decimal(text: Seq<char>) -> Option<int> {
    let signed = text.len() > 0 && (text[0] == '-' || text[0] == '+');
    let digits = if signed {
        text.subrange(1, text.len() as int)
    } else {
        text
    };
    if digits.len() > 0 && all_digits(digits) {
        if signed && text[0] == '-' {
            Some(-digits_value(digits))
        } else {
            Some(digits_value(digits))
        }
    } else {
        None
    }
}

/// The 32-bit integer that `text` writes, if it writes one that fits.
pub open spec fn parse_i32_spec(text: Seq<char>) -> Option<i32> {
    match parse_decimal(text) {
        Some(value) => if i32::MIN <= value <= i32::MAX {
            Some(value as i32)
        } else {
            None
        },
        None => None,
    }
}

/// The digits of a number are digits, and they write that number.
pub proof fn lemma_decimal_digits(n: nat)
    ensures
        decimal_digits(n).len() > 0,
        all_digits(decimal_digits(n)),
        is_digit(decimal_digits(n)[0]),
        digits_value(decimal_digits(n)) == n,
    decreases n,
{
    if n < 10 {
        assert(digits_value(decimal_digits(n).drop_last()) == 0);
    } else {
        lemma_decimal_digits(n / 10);
        let digits = decimal_digits(n);
        assert(digits.drop_last() =~= decimal_digits(n / 10));
        assert forall|i: int| 0 <= i < digits.len() implies is_digit(#[trigger] digits[i]) by {}
    }
}

/// Decoding the decimal text of an integer gives that integer back.
pub proof fn lemma_decimal_round_trip(value: int)
    ensures
        parse_decimal(encode_decimal(value)) == Some(value),
{
    if value < 0 {
        lemma_decimal_digits((-value) as nat);
        let text = encode_decimal(value);
        assert(text.subrange(1, text.len() as int) =~= decimal_digits((-value) as nat));
    } else {
        lemma_decimal_digits(value as nat);
    }
}

/// A run of digits writes a number at least as large as the one any of its
/// prefixes writes.
proof fn lemma_digits_value_prefix(digits: Seq<char>, k: int)
    requires
        all_digits(digits),
        0 <= k <= digits.len(),
    ensures
        0 <= digits_value(digits.subrange(0, k)) <= digits_value(digits),
    decreases digits.len() - k,
{
    if k == digits.len() {
        assert(digits.subrange(0, k) =~= digits);
        lemma_digits_value_nonnegative(digits);
    } else {
        let shorter = digits.drop_last();
        assert(shorter.subrange(0, k) =~= digits.subrange(0, k));
        lemma_digits_value_prefix(shorter, k);
    }
}

/// A run of digits writes a number that is not negative.
proof fn lemma_digits_value_nonnegative(digits: Seq<char>)
    requires
        all_digits(digits),
    ensures
        0 <= digits_value(digits),
    decreases digits.len(),
{
    if digits.len() > 0 {
        lemma_digits_value_nonnegative(digits.drop_last());
    }
}

/// The one-character text of the digit `d`.
fn digit_str(d: u64) -> (text: &'static str)
    requires
        d < 10,
    ensures
        text@ == seq![digit_char(d as int)],
{
    proof {
        reveal_strlit("0");
        reveal_strlit("1");
        reveal_strlit("2");
        reveal_strlit("3");
        reveal_strlit("4");
        reveal_strlit("5");
        reveal_strlit("6");
        reveal_strlit("7");
        reveal_strlit("8");
        reveal_strlit("9");
    }
    match d {
        0 => "0",
        1 => "1",
        2 => "2",
        3 => "3",
        4 => "4",
        5 => "5",
        6 => "6",
        7 => "7",
        8 => "8",
        _ => "9",
    }
}

/// Appends the digits of `n` to `out`.
fn push_digits(out: &mut String, n: u64)
    ensures
        final(out)@ == old(out)@ + decimal_digits(n as nat),
    decreases n,
{
    if n >= 10 {
        push_digits(out, n / 10);
    }
    out.append(digit_str(n % 10));
}

/// The decimal text of `value`.
pub fn i32_to_string(value: i32) -> (text: String)
    ensures
        text@ == encode_decimal(value as int),
{
    let mut text = String::new();
    let wide: i64 = value as i64;
    if wide < 0 {
        proof {
            reveal_strlit("-");
        }
        text.append("-");
        push_digits(&mut text, (-wide) as u64);
    } else {
        push_digits(&mut text, wide as u64);
    }
    text
}

/// Reads `text` as a 32-bit integer in decimal: an optional sign, then digits.
/// `None` where `text` is anything else, or writes a number that does not fit.
#[verifier::loop_isolation(false)]
pub fn parse_i32(text: &str) -> (value: Option<i32>)
    ensures
        value == parse_i32_spec(text@),
{
    if !text.is_ascii() {
        proof {
            lemma_non_ascii_is_no_number(text@);
        }
        return None;
    }
    let bytes = text.as_bytes();
    proof {
        is_ascii_spec_bytes(text);
    }
    let len: usize = bytes.len();
    if len == 0 {
        return None;
    }
    let first: u8 = bytes[0];
    let negative = first == 45;
    let start: usize = if first == 45 || first == 43 {
        1
    } else {
        0
    };
    let ghost digits = text@.subrange(start as int, len as int);
    assert(start == 0 ==> digits =~= text@);
    let mut i: usize = start;
    let mut magnitude: i64 = 0;
    while i < len
        invariant
            start <= i <= len,
            all_digits(digits.subrange(0, i - start)),
            magnitude == digits_value(digits.subrange(0, i - start)),
            0 <= magnitude <= 2147483648,
        decreases len - i,
    {
        let c: u8 = bytes[i];
        if c < 48 || c > 57 {
            assert(!is_digit(digits[i - start]));
            return None;
        }
        let ghost shorter = digits.subrange(0, i - start);
        let ghost longer = digits.subrange(0, i + 1 - start);
        assert(longer.drop_last() =~= shorter);
        assert forall|j: int| 0 <= j < longer.len() implies is_digit(#[trigger] longer[j]) by {}
        let next: i64 = magnitude * 10 + (c - 48) as i64;
        if next > 2147483648 {
            proof {
                if all_digits(digits) {
                    lemma_digits_value_prefix(digits, i + 1 - start);
                }
            }
            return None;
        }
        magnitude = next;
        i += 1;
    }
    assert(digits.subrange(0, len - start) =~= digits);
    if start == len {
        return None;
    }
    if negative {
        Some((-magnitude) as i32)
    } else if magnitude > 2147483647 {
        None
    } else {
        Some(magnitude as i32)
    }
}

/// Text with a character outside ASCII writes no number.
proof fn lemma_non_ascii_is_no_number(text: Seq<char>)
    requires
        !is_ascii_chars(text),
    ensures
        parse_decimal(text) is None,
{
    let i = choose|i: int| 0 <= i < text.len() && !('\0' <= #[trigger] text[i] <= '\u{7f}');
    if text[0] == '-' || text[0] == '+' {
        assert(!is_digit(text.subrange(1, text.len() as int)[i - 1]));
    }
}

} // verus!
