//! Reading the bounded numeric values of the command line.

use vstd::prelude::*;
use vstd::string::*;
use vstd::utf8::{encode_utf8, is_ascii_chars, is_ascii_chars_encode_utf8};
use crate::text::{decimal, decimal_text};

verus! {

/// Whether `b` is an ASCII decimal digit.
pub open spec fn is_digit(b: u8) -> bool {
    48 <= b <= 57
}

/// Every byte of `d` is a decimal digit.
pub open spec fn all_digits(d: Seq<u8>) -> bool {
    forall|i: int| 0 <= i < d.len() ==> is_digit(#[trigger] d[i])
}

/// The value of a run of decimal digits, most significant first.
pub open spec fn digits_value(d: Seq<u8>) -> nat
    decreases d.len(),
{
    if d.len() == 0 {
        0
    } else {
        digits_value(d.drop_last()) * 10 + (d.last() - 48) as nat
    }
}

/// The digits of an unsigned numeral: what follows one optional leading `+`.
pub open spec fn unsigned_digits(text: Seq<u8>) -> Seq<u8> {
    if text.len() > 0 && text[0] == 43u8 {
        text.drop_first()
    } else {
        text
    }
}

/// The `u64` that `text` spells as `str::parse::<u64>` reads it: one optional
/// `+`, then one or more decimal digits, with no other character and a value
/// that fits in 64 bits.
pub open spec fn parsed_u64(text: Seq<u8>) -> Option<u64> {
    let d = unsigned_digits(text);
    if 0 < d.len() && all_digits(d) && digits_value(d) <= u64::MAX {
        Some(digits_value(d) as u64)
    } else {
        None
    }
}

/// A longer run of digits never has a smaller value than its prefix.
proof fn prefix_value_is_smaller(d: Seq<u8>, j: int)
    requires
        all_digits(d),
        0 <= j <= d.len(),
    ensures
        digits_value(d.subrange(0, j)) <= digits_value(d),
    decreases d.len(),
{
    if j < d.len() {
        let shorter = d.drop_last();
        assert(all_digits(shorter));
        prefix_value_is_smaller(shorter, j);
        assert(shorter.subrange(0, j) =~= d.subrange(0, j));
    } else {
        assert(d.subrange(0, j) =~= d);
    }
}

/// Reads `text` as an unsigned 64-bit decimal number.
pub fn parse_u64(text: &str) -> (value: Option<u64>)
    ensures
        value == parsed_u64(text.spec_bytes()),
{
    let bytes = text.as_bytes();
    let n = bytes.len();
    let start: usize = if n > 0 && bytes[0] == 43u8 { 1 } else { 0 };
    let ghost digits = unsigned_digits(bytes@);
    assert(digits =~= bytes@.subrange(start as int, n as int));
    if start == n {
        return None;
    }
    let mut value: u64 = 0;
    let mut i: usize = start;
    assert(bytes@.subrange(start as int, start as int) =~= Seq::<u8>::empty());
    while i < n
        invariant
            start <= i <= n,
            n == bytes@.len(),
            bytes@ == text.spec_bytes(),
            digits == unsigned_digits(bytes@),
            digits =~= bytes@.subrange(start as int, n as int),
            value == digits_value(bytes@.subrange(start as int, i as int)),
            all_digits(bytes@.subrange(start as int, i as int)),
        decreases n - i,
    {
        let b = bytes[i];
        let ghost before = bytes@.subrange(start as int, i as int);
        let ghost after = bytes@.subrange(start as int, i + 1);
        assert(after.drop_last() =~= before);
        assert(after.last() == b);
        assert(digits[i - start] == b);
        if b < 48u8 || b > 57u8 {
            assert(!is_digit(digits[i - start]));
            assert(!all_digits(digits));
            return None;
        }
        assert(all_digits(after));
        assert(digits_value(after) == digits_value(before) * 10 + (b - 48) as nat);
        match value.checked_mul(10) {
            None => {
                proof {
                    if all_digits(digits) {
                        assert(digits.subrange(0, i + 1 - start) =~= after);
                        prefix_value_is_smaller(digits, i + 1 - start);
                    }
                }
                return None;
            },
            Some(tens) => match tens.checked_add((b - 48u8) as u64) {
                None => {
                    proof {
                        if all_digits(digits) {
                            assert(digits.subrange(0, i + 1 - start) =~= after);
                            prefix_value_is_smaller(digits, i + 1 - start);
                        }
                    }
                    return None;
                },
                Some(next) => {
                    assert(next == digits_value(after));
                    value = next;
                },
            },
        }
        i = i + 1;
    }
    Some(value)
}

/// The result of reading a bounded command-line value, texts taken by their view.
pub open spec fn result_view<T>(result: Result<T, String>) -> Result<T, Seq<char>> {
    match result {
        Ok(v) => Ok(v),
        Err(message) => Err(message@),
    }
}

/// What reading `text` as a number from 1 to `maximum` gives: the number, or
/// the message that names `label` and says what was wrong.
pub open spec fn bounded_value(text: Seq<u8>, maximum: u64, label: Seq<char>) -> Result<u64, Seq<char>> {
    match parsed_u64(text) {
        None => Err(label + " must be an integer"@),
        Some(n) => if 1 <= n <= maximum {
            Ok(n)
        } else {
            Err(label + " must be between 1 and "@ + decimal(maximum as nat))
        },
    }
}

/// Reads `value` as a number from 1 to `maximum`; the error names `label`.
pub fn parse_bounded(value: &str, maximum: u64, label: &str) -> (result: Result<u64, String>)
    ensures
        result_view(result) == bounded_value(value.spec_bytes(), maximum, label@),
{
    match parse_u64(value) {
        None => Err(String::from_str(label).concat(" must be an integer")),
        Some(parsed) => {
            if 1 <= parsed && parsed <= maximum {
                Ok(parsed)
            } else {
                let bound = decimal_text(maximum as u128);
                Err(String::from_str(label).concat(" must be between 1 and ").concat(bound.as_str()))
            }
        },
    }
}

/// Reads a timeout in milliseconds: from 1 to one hour.
pub fn parse_timeout(value: &str) -> (result: Result<u64, String>)
    ensures
        result_view(result) == bounded_value(value.spec_bytes(), 3_600_000, "timeout"@),
{
    parse_bounded(value, 3_600_000, "timeout")
}

/// Reads a cleanup timeout in milliseconds: from 1 to one minute.
pub fn parse_cleanup_timeout(value: &str) -> (result: Result<u64, String>)
    ensures
        result_view(result) == bounded_value(value.spec_bytes(), 60_000, "cleanup timeout"@),
{
    parse_bounded(value, 60_000, "cleanup timeout")
}

/// Reads a handshake frame size in bytes: from 1 to one mebibyte.
pub fn parse_frame_size(value: &str) -> (result: Result<usize, String>)
    ensures
        result_view(result) == (match bounded_value(
            value.spec_bytes(),
            1_048_576,
            "handshake frame size"@,
        ) {
            Ok(n) => Ok(n as usize),
            Err(message) => Err(message),
        }),
{
    match parse_bounded(value, 1_048_576, "handshake frame size") {
        Ok(parsed) => Ok(parsed as usize),
        Err(message) => Err(message),
    }
}

/// The bytes of the decimal numeral of `n`.
pub open spec fn decimal_bytes(n: nat) -> Seq<u8>
    decreases n,
{
    if n < 10 {
        seq![(48 + n) as u8]
    } else {
        decimal_bytes(n / 10).push((48 + n % 10) as u8)
    }
}

proof fn decimal_bytes_read_back(n: nat)
    ensures
        decimal_bytes(n).len() > 0,
        is_digit(decimal_bytes(n)[0]),
        all_digits(decimal_bytes(n)),
        digits_value(decimal_bytes(n)) == n,
    decreases n,
{
    let b = decimal_bytes(n);
    if n >= 10 {
        decimal_bytes_read_back(n / 10);
        assert(b.drop_last() =~= decimal_bytes(n / 10));
        assert(b[0] == decimal_bytes(n / 10)[0]);
        assert(b.last() - 48 == n % 10);
        assert(digits_value(b) == digits_value(b.drop_last()) * 10 + (b.last() - 48) as nat);
        assert((n / 10) * 10 + n % 10 == n);
    } else {
        assert(b.drop_last() =~= Seq::<u8>::empty());
        assert(digits_value(b) == digits_value(b.drop_last()) * 10 + (b.last() - 48) as nat);
    }
}

/// The numeral of `n` is made of ASCII digits, each the character of its byte.
pub proof fn decimal_is_ascii_digits(n: nat)
    ensures
        decimal(n).len() == decimal_bytes(n).len(),
        forall|i: int|
            0 <= i < decimal(n).len() ==> '0' <= #[trigger] decimal(n)[i] <= '9' && decimal(n)[i]
                as u8 == decimal_bytes(n)[i],
    decreases n,
{
    if n >= 10 {
        decimal_is_ascii_digits(n / 10);
    }
}

/// The bytes of the decimal numeral of `n` are what its characters encode to.
proof fn decimal_encodes_to_its_bytes(n: nat)
    ensures
        encode_utf8(decimal(n)) == decimal_bytes(n),
{
    decimal_is_ascii_digits(n);
    assert(is_ascii_chars(decimal(n)));
    is_ascii_chars_encode_utf8(decimal(n));
    assert(encode_utf8(decimal(n)) =~= decimal_bytes(n));
}

/// Reading back the decimal numeral of a number from 1 to `maximum` gives
/// that number: a text whose characters are `decimal(n)` is read as `n`.
pub proof fn decimal_numerals_read_back(n: u64, maximum: u64, label: Seq<char>)
    requires
        1 <= n <= maximum,
    ensures
        parsed_u64(encode_utf8(decimal(n as nat))) == Some(n),
        bounded_value(encode_utf8(decimal(n as nat)), maximum, label) == Ok::<u64, Seq<char>>(n),
{
    decimal_encodes_to_its_bytes(n as nat);
    decimal_bytes_read_back(n as nat);
    assert(unsigned_digits(decimal_bytes(n as nat)) == decimal_bytes(n as nat));
}

/// Every decimal numeral of a 64-bit number, zero included, reads back as that number.
pub proof fn decimal_reads_back(n: nat)
    requires
        n <= u64::MAX,
    ensures
        parsed_u64(encode_utf8(decimal(n))) == Some(n as u64),
{
    decimal_encodes_to_its_bytes(n);
    decimal_bytes_read_back(n);
    assert(unsigned_digits(decimal_bytes(n)) == decimal_bytes(n));
}

} // verus!
