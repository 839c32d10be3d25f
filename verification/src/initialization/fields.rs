//! The fields of a raw item: numbers in decimal, and lists of numbers with a
//! separator between them.

use vstd::prelude::*;
use vstd::utf8::*;

use crate::text::{decimal, decimal_nat, digit_char, find_byte, first_of, lemma_first_of};

verus! {

/// Whether the byte is a decimal digit.
pub open spec fn is_digit(byte: u8) -> bool {
    48 <= byte <= 57
}

/// Whether all of the bytes are decimal digits.
pub open spec fn all_digits(bytes: Seq<u8>) -> bool {
    forall|i: int| 0 <= i < bytes.len() ==> is_digit(#[trigger] bytes[i])
}

/// The number that the digits `digits` write.
pub open spec fn digits_value(digits: Seq<u8>) -> nat
    decreases digits.len(),
{
    if digits.len() == 0 {
        0
    } else {
        digits_value(digits.drop_last()) * 10 + (digits.last() - 48) as nat
    }
}

/// The number that the bytes `bytes` write, if they write one that is `most`
/// at most: at least one digit and nothing else.
pub open spec fn parse_digits(bytes: Seq<u8>, most: nat) -> Option<nat> {
    if bytes.len() > 0 && all_digits(bytes) && digits_value(bytes) <= most {
        Some(digits_value(bytes))
    } else {
        None
    }
}

/// The number without sign that the bytes `bytes` write, if they write one
/// that is `most` at most: digits, with or without a plus sign before them.
pub open spec fn parse_unsigned(bytes: Seq<u8>, most: nat) -> Option<nat> {
    if bytes.len() > 0 && bytes[0] == 43 {
        parse_digits(bytes.skip(1), most)
    } else {
        parse_digits(bytes, most)
    }
}

/// The number with sign that the bytes `bytes` write, if they write one
/// between `-least` and `most`: digits, with or without a plus or minus sign
/// before them.
pub open spec fn parse_signed(bytes: Seq<u8>, least: nat, most: nat) -> Option<int> {
    if bytes.len() > 0 && bytes[0] == 45 {
        match parse_digits(bytes.skip(1), least) {
            Some(n) => Some(-(n as int)),
            None => None,
        }
    } else {
        match parse_unsigned(bytes, most) {
            Some(n) => Some(n as int),
            None => None,
        }
    }
}

/// Digits that follow other digits only add to the number.
pub proof fn lemma_digits_grow(digits: Seq<u8>, n: int)
    requires
        0 <= n <= digits.len(),
    ensures
        digits_value(digits.take(n)) <= digits_value(digits),
    decreases digits.len() - n,
{
    if n < digits.len() {
        let next = digits.take(n + 1);
        assert(next.drop_last() =~= digits.take(n));
        lemma_digits_grow(digits, n + 1);
    } else {
        assert(digits.take(n) =~= digits);
    }
}

/// Reads the bytes of `bytes` from `from` up to `to` as digits that write a
/// number that is `most` at most.
fn read_digits(bytes: &[u8], from: usize, to: usize, most: u64) -> (number: Option<u64>)
    requires
        from <= to <= bytes@.len(),
        most <= 0xffff_ffff,
    ensures
        match number {
            Some(n) => parse_digits(bytes@.subrange(from as int, to as int), most as nat) == Some(
                n as nat,
            ),
            None => parse_digits(bytes@.subrange(from as int, to as int), most as nat) is None,
        },
{
    let ghost digits = bytes@.subrange(from as int, to as int);
    if from == to {
        return None;
    }
    let mut value: u64 = 0;
    let mut i: usize = from;
    while i < to
        invariant
            from <= i <= to <= bytes@.len(),
            digits == bytes@.subrange(from as int, to as int),
            all_digits(digits.take(i - from)),
            value == digits_value(digits.take(i - from)),
            value <= most <= 0xffff_ffff,
        decreases to - i,
    {
        let byte = bytes[i];
        proof {
            let next = digits.take(i - from + 1);
            assert(next.drop_last() =~= digits.take(i - from));
            assert(next.last() == byte);
            assert(digits[i - from] == byte);
        }
        if byte < 48 || byte > 57 {
            assert(!is_digit(digits[i - from]));
            return None;
        }
        value = value * 10 + (byte - 48) as u64;
        if value > most {
            proof {
                lemma_digits_grow(digits, i - from + 1);
            }
            return None;
        }
        proof {
            let next = digits.take(i - from + 1);
            assert forall|j: int| 0 <= j < next.len() implies is_digit(#[trigger] next[j]) by {
                if j < i - from {
                    assert(next[j] == digits.take(i - from)[j]);
                }
            }
        }
        i += 1;
    }
    assert(digits.take(i - from) =~= digits);
    Some(value)
}

/// Reads the bytes of `bytes` from `from` up to `to` as a number of sixteen
/// bits without sign.
pub fn read_u16(bytes: &[u8], from: usize, to: usize) -> (number: Option<u16>)
    requires
        from <= to <= bytes@.len(),
    ensures
        match number {
            Some(n) => parse_unsigned(bytes@.subrange(from as int, to as int), 0xffff) == Some(
                n as nat,
            ),
            None => parse_unsigned(bytes@.subrange(from as int, to as int), 0xffff) is None,
        },
{
    let ghost field = bytes@.subrange(from as int, to as int);
    let start = if from < to && bytes[from] == 43 {
        assert(field[0] == bytes@[from as int]);
        assert(field.skip(1) =~= bytes@.subrange(from + 1, to as int));
        from + 1
    } else {
        assert(from < to ==> field[0] == bytes@[from as int]);
        from
    };
    match read_digits(bytes, start, to, 0xffff) {
        Some(n) => Some(n as u16),
        None => None,
    }
}

/// Reads the bytes of `bytes` from `from` up to `to` as a number of thirty-two
/// bits with sign.
pub fn read_i32(bytes: &[u8], from: usize, to: usize) -> (number: Option<i32>)
    requires
        from <= to <= bytes@.len(),
    ensures
        match number {
            Some(n) => parse_signed(
                bytes@.subrange(from as int, to as int),
                0x8000_0000,
                0x7fff_ffff,
            ) == Some(n as int),
            None => parse_signed(
                bytes@.subrange(from as int, to as int),
                0x8000_0000,
                0x7fff_ffff,
            ) is None,
        },
{
    let ghost field = bytes@.subrange(from as int, to as int);
    if from < to && bytes[from] == 45 {
        assert(field[0] == bytes@[from as int]);
        assert(field.skip(1) =~= bytes@.subrange(from + 1, to as int));
        match read_digits(bytes, from + 1, to, 0x8000_0000) {
            Some(n) => Some((0 - n as i64) as i32),
            None => None,
        }
    } else {
        let start = if from < to && bytes[from] == 43 {
            assert(field[0] == bytes@[from as int]);
            assert(field.skip(1) =~= bytes@.subrange(from + 1, to as int));
            from + 1
        } else {
            assert(from < to ==> field[0] == bytes@[from as int]);
            from
        };
        match read_digits(bytes, start, to, 0x7fff_ffff) {
            Some(n) => Some(n as i32),
            None => None,
        }
    }
}

/// The parts into which the byte `separator` divides `bytes`: what stands
/// before the first separator, and the parts of what stands after it. Bytes
/// without a separator are one part, and so are no bytes at all.
pub open spec fn split(bytes: Seq<u8>, separator: u8) -> Seq<Seq<u8>>
    decreases bytes.len(),
{
    let at = first_of(bytes, separator);
    if 0 <= at < bytes.len() {
        seq![bytes.take(at)] + split(bytes.skip(at + 1), separator)
    } else {
        seq![bytes]
    }
}

/// Where one part of some bytes begins and ends.
#[derive(Debug, Clone, Copy, PartialEq, Eq, Structural)]
pub struct Span {
    /// The place of the first byte of the part.
    pub from: usize,
    /// The place after the last byte of the part.
    pub to: usize,
}

/// The parts of `bytes` at the spans `spans`.
pub open spec fn parts_at(bytes: Seq<u8>, spans: Seq<Span>) -> Seq<Seq<u8>> {
    Seq::new(spans.len(), |i: int| bytes.subrange(spans[i].from as int, spans[i].to as int))
}

/// Whether every span of `spans` lies within `length` bytes.
pub open spec fn spans_within(spans: Seq<Span>, length: int) -> bool {
    forall|i: int| 0 <= i < spans.len() ==> (#[trigger] spans[i]).from <= spans[i].to <= length
}

/// Finds the parts into which the byte `separator` divides `bytes`.
pub fn split_spans(bytes: &[u8], separator: u8) -> (spans: Vec<Span>)
    ensures
        spans_within(spans@, bytes@.len() as int),
        parts_at(bytes@, spans@) == split(bytes@, separator),
        spans@.len() >= 1,
{
    let mut spans: Vec<Span> = Vec::new();
    let mut start: usize = 0;
    let length = bytes.len();
    assert(bytes@.skip(0) =~= bytes@);
    loop
        invariant
            length == bytes@.len(),
            start <= bytes@.len(),
            spans_within(spans@, bytes@.len() as int),
            parts_at(bytes@, spans@) + split(bytes@.skip(start as int), separator) == split(
                bytes@,
                separator,
            ),
        decreases bytes@.len() - start,
    {
        let ghost rest = bytes@.skip(start as int);
        let ghost before = spans@;
        let at = find_byte(bytes, start, separator);
        let end = start + at;
        spans.push(Span { from: start, to: end });
        proof {
            lemma_first_of(rest, separator);
            assert(rest.take(at as int) =~= bytes@.subrange(start as int, end as int));
            assert(parts_at(bytes@, spans@) =~= parts_at(bytes@, before) + seq![
                bytes@.subrange(start as int, end as int),
            ]);
        }
        if end == length {
            proof {
                assert(rest.take(at as int) =~= rest);
                assert(split(rest, separator) =~= seq![rest]);
            }
            return spans;
        }
        proof {
            assert(rest.skip(at + 1) =~= bytes@.skip(end + 1));
            assert(split(rest, separator) =~= seq![rest.take(at as int)] + split(
                bytes@.skip(end + 1),
                separator,
            ));
            assert(parts_at(bytes@, spans@) + split(bytes@.skip(end + 1), separator) =~= parts_at(
                bytes@,
                before,
            ) + split(rest, separator));
        }
        start = end + 1;
    }
}

/// The digits of a number are plain characters, one byte each, and the bytes
/// are digits that write the number.
pub proof fn lemma_digits_read_back(n: nat)
    ensures
        is_ascii_chars(decimal_nat(n)),
        encode_utf8(decimal_nat(n)).len() == decimal_nat(n).len() >= 1,
        all_digits(encode_utf8(decimal_nat(n))),
        digits_value(encode_utf8(decimal_nat(n))) == n,
    decreases n,
{
    let text = decimal_nat(n);
    let last = digit_char((n % 10) as int);
    assert('0' <= last <= '9');
    assert(last as u8 == 48 + n % 10);
    if n < 10 {
        assert(text =~= seq![last]);
        assert(is_ascii_chars(text));
        is_ascii_chars_encode_utf8(text);
        let bytes = encode_utf8(text);
        assert(bytes[0] == text[0] as u8);
        assert(bytes.drop_last() =~= Seq::<u8>::empty());
        assert(digits_value(bytes.drop_last()) == 0);
    } else {
        let front = decimal_nat(n / 10);
        lemma_digits_read_back(n / 10);
        assert(text == front.push(last));
        assert forall|i: int| 0 <= i < text.len() implies '\0' <= #[trigger] text[i]
            <= '\u{7f}' by {
            if i < front.len() {
                assert(text[i] == front[i]);
            }
        }
        is_ascii_chars_encode_utf8(text);
        is_ascii_chars_encode_utf8(front);
        let bytes = encode_utf8(text);
        let before = encode_utf8(front);
        assert(bytes.drop_last() =~= before) by {
            assert forall|i: int| 0 <= i < before.len() implies bytes.drop_last()[i]
                == before[i] by {
                assert(bytes[i] == text[i] as u8);
                assert(before[i] == front[i] as u8);
                assert(text[i] == front[i]);
            }
        }
        assert(bytes.last() == text[text.len() - 1] as u8);
        assert forall|i: int| 0 <= i < bytes.len() implies is_digit(#[trigger] bytes[i]) by {
            if i < before.len() {
                assert(bytes[i] == bytes.drop_last()[i]);
            }
        }
    }
}

/// What is written is read back: the decimal form of a number of thirty-two
/// bits with sign reads as that number, and the decimal form of a number of
/// sixteen bits without sign as that number.
pub proof fn lemma_decimal_reads_back(n: int)
    requires
        -0x8000_0000 <= n <= 0x7fff_ffff,
    ensures
        parse_signed(encode_utf8(decimal(n)), 0x8000_0000, 0x7fff_ffff) == Some(n),
        0 <= n <= 0xffff ==> parse_unsigned(encode_utf8(decimal(n)), 0xffff) == Some(n as nat),
{
    if n < 0 {
        let digits = decimal_nat((-n) as nat);
        lemma_digits_read_back((-n) as nat);
        let text = decimal(n);
        assert(text == seq!['-'] + digits);
        assert forall|i: int| 0 <= i < text.len() implies '\0' <= #[trigger] text[i]
            <= '\u{7f}' by {
            if i > 0 {
                assert(text[i] == digits[i - 1]);
            }
        }
        is_ascii_chars_encode_utf8(text);
        is_ascii_chars_encode_utf8(digits);
        let bytes = encode_utf8(text);
        assert(bytes[0] == text[0] as u8);
        assert(bytes[0] == 45);
        assert(bytes.skip(1) =~= encode_utf8(digits)) by {
            assert forall|i: int| 0 <= i < digits.len() implies bytes.skip(1)[i] == encode_utf8(
                digits,
            )[i] by {
                assert(bytes[i + 1] == text[i + 1] as u8);
                assert(encode_utf8(digits)[i] == digits[i] as u8);
                assert(text[i + 1] == digits[i]);
            }
        }
    } else {
        lemma_digits_read_back(n as nat);
        let bytes = encode_utf8(decimal(n));
        assert(is_digit(bytes[0]));
    }
}

} // verus!
