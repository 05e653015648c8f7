//! Notations shared by records, names and digests: decimal, lowercase hexadecimal, big-endian
//! integers, and length-prefixed frames.

use crate::bytes::{append, lemma_utf8_ascii, utf8};
use vstd::prelude::*;
use vstd::string::StringExecFns;
use vstd::utf8::is_ascii_chars;

verus! {

/// The lowercase hexadecimal digit of a value below sixteen.
pub open spec fn digit_char(digit: int) -> char {
    if digit < 10 {
        (48 + digit) as char
    } else {
        (87 + digit) as char
    }
}

/// The value of a lowercase hexadecimal digit.
pub open spec fn digit_value(byte: u8) -> Option<u8> {
    if 48 <= byte <= 57 {
        Some((byte - 48) as u8)
    } else if 97 <= byte <= 102 {
        Some((byte - 87) as u8)
    } else {
        None
    }
}

pub open spec fn is_digit(byte: u8) -> bool {
    48 <= byte <= 57
}

pub open spec fn is_lower_hex(byte: u8) -> bool {
    48 <= byte <= 57 || 97 <= byte <= 102
}

pub open spec fn is_hex(byte: u8) -> bool {
    48 <= byte <= 57 || 97 <= byte <= 102 || 65 <= byte <= 70
}

pub open spec fn all_lower_hex(bytes: Seq<u8>) -> bool {
    forall|i: int| 0 <= i < bytes.len() ==> is_lower_hex(#[trigger] bytes[i])
}

pub open spec fn all_hex(bytes: Seq<u8>) -> bool {
    forall|i: int| 0 <= i < bytes.len() ==> is_hex(#[trigger] bytes[i])
}

pub open spec fn all_digits(bytes: Seq<u8>) -> bool {
    forall|i: int| 0 <= i < bytes.len() ==> is_digit(#[trigger] bytes[i])
}

pub fn only_lower_hex(bytes: &[u8]) -> (only: bool)
    ensures
        only == all_lower_hex(bytes@),
{
    let mut i: usize = 0;
    while i < bytes.len()
        invariant
            i <= bytes@.len(),
            forall|k: int| 0 <= k < i ==> is_lower_hex(#[trigger] bytes@[k]),
        decreases bytes@.len() - i,
    {
        let byte: u8 = bytes[i];
        if !(48 <= byte && byte <= 57 || 97 <= byte && byte <= 102) {
            return false;
        }
        i += 1;
    }
    true
}

pub fn only_hex(bytes: &[u8]) -> (only: bool)
    ensures
        only == all_hex(bytes@),
{
    let mut i: usize = 0;
    while i < bytes.len()
        invariant
            i <= bytes@.len(),
            forall|k: int| 0 <= k < i ==> is_hex(#[trigger] bytes@[k]),
        decreases bytes@.len() - i,
    {
        let byte: u8 = bytes[i];
        if !(48 <= byte && byte <= 57 || 97 <= byte && byte <= 102 || 65 <= byte && byte <= 70) {
            return false;
        }
        i += 1;
    }
    true
}

pub fn only_digits(bytes: &[u8]) -> (only: bool)
    ensures
        only == all_digits(bytes@),
{
    let mut i: usize = 0;
    while i < bytes.len()
        invariant
            i <= bytes@.len(),
            forall|k: int| 0 <= k < i ==> is_digit(#[trigger] bytes@[k]),
        decreases bytes@.len() - i,
    {
        let byte: u8 = bytes[i];
        if !(48 <= byte && byte <= 57) {
            return false;
        }
        i += 1;
    }
    true
}

fn digit_text(digit: u8) -> (text: &'static str)
    requires
        digit < 16,
    ensures
        text@ == seq![digit_char(digit as int)],
{
    proof {
        reveal_strlit("0");
        reveal_strlit("1");
        reveal_strlit("2");
        reveal_strlit("3");
        reveal_strlit("4");
        reveal_strlit("5");
        reveal_strlit("6");
        reveal_strlit("7");
        reveal_strlit("8");
        reveal_strlit("9");
        reveal_strlit("a");
        reveal_strlit("b");
        reveal_strlit("c");
        reveal_strlit("d");
        reveal_strlit("e");
        reveal_strlit("f");
    }
    match digit {
        0 => "0",
        1 => "1",
        2 => "2",
        3 => "3",
        4 => "4",
        5 => "5",
        6 => "6",
        7 => "7",
        8 => "8",
        9 => "9",
        10 => "a",
        11 => "b",
        12 => "c",
        13 => "d",
        14 => "e",
        _ => "f",
    }
}

/// Lowercase hexadecimal, two digits for a byte, the high one first.
pub open spec fn hex_text(bytes: Seq<u8>) -> Seq<char> {
    Seq::new(
        2 * bytes.len(),
        |i: int|
            digit_char(
                if i % 2 == 0 {
                    (bytes[i / 2] / 16) as int
                } else {
                    (bytes[i / 2] % 16) as int
                },
            ),
    )
}

/// The bytes that pairs of lowercase hexadecimal digits stand for.
pub open spec fn unhex(digits: Seq<u8>) -> Seq<u8> {
    Seq::new(
        digits.len() / 2,
        |i: int| (digit_value(digits[2 * i])->0 * 16 + digit_value(digits[2 * i + 1])->0) as u8,
    )
}

/// Hexadecimal notation is ASCII, two lowercase digits a byte, and reads back as what was written.
pub proof fn lemma_hex_text(bytes: Seq<u8>)
    ensures
        is_ascii_chars(hex_text(bytes)),
        utf8(hex_text(bytes)).len() == 2 * bytes.len(),
        all_lower_hex(utf8(hex_text(bytes))),
        unhex(utf8(hex_text(bytes))) == bytes,
{
    let text = hex_text(bytes);
    assert forall|i: int| 0 <= i < text.len() implies '\0' <= #[trigger] text[i] <= '\u{7f}' by {
        assert(0 <= i / 2 < bytes.len());
    }
    lemma_utf8_ascii(text);
    let digits = utf8(text);
    assert forall|i: int| 0 <= i < digits.len() implies is_lower_hex(#[trigger] digits[i]) by {
        assert(digits[i] == text[i] as u8);
    }
    assert forall|i: int| 0 <= i < bytes.len() implies unhex(digits)[i] == bytes[i] by {
        assert(digits[2 * i] == text[2 * i] as u8);
        assert(digits[2 * i + 1] == text[2 * i + 1] as u8);
        assert((2 * i) / 2 == i && (2 * i + 1) / 2 == i);
        let high = (bytes[i] / 16) as int;
        let low = (bytes[i] % 16) as int;
        assert(text[2 * i] == digit_char(high));
        assert(text[2 * i + 1] == digit_char(low));
        assert(high * 16 + low == bytes[i]);
    }
    assert(unhex(digits) =~= bytes);
}

/// Names in hexadecimal are unambiguous: bytes that are written alike are the same.
pub proof fn law_hex_is_unambiguous(left: Seq<u8>, right: Seq<u8>)
    ensures
        hex_text(left) == hex_text(right) <==> left == right,
{
    lemma_hex_text(left);
    lemma_hex_text(right);
}

pub fn to_hex(bytes: &[u8]) -> (text: String)
    ensures
        text@ == hex_text(bytes@),
{
    let mut text = String::new();
    let mut i: usize = 0;
    while i < bytes.len()
        invariant
            i <= bytes@.len(),
            text@ == hex_text(bytes@.subrange(0, i as int)),
        decreases bytes@.len() - i,
    {
        let ghost before = text@;
        let byte: u8 = bytes[i];
        text.append(digit_text(byte / 16));
        text.append(digit_text(byte % 16));
        i += 1;
        proof {
            let done = bytes@.subrange(0, i as int);
            let earlier = bytes@.subrange(0, i - 1);
            assert forall|k: int| 0 <= k < 2 * i implies text@[k] == hex_text(done)[k] by {
                if k < 2 * (i - 1) {
                    assert(text@[k] == before[k]);
                    assert(k / 2 < i - 1);
                    assert(earlier[k / 2] == done[k / 2]);
                } else {
                    assert(k / 2 == i - 1);
                    assert(done[k / 2] == byte);
                }
            }
            assert(text@ =~= hex_text(done));
        }
    }
    proof {
        assert(bytes@.subrange(0, i as int) =~= bytes@);
    }
    text
}

/// Reads pairs of lowercase hexadecimal digits.
pub fn from_hex(digits: &[u8]) -> (bytes: Vec<u8>)
    requires
        digits@.len() % 2 == 0,
        all_lower_hex(digits@),
    ensures
        bytes@ == unhex(digits@),
{
    let mut bytes: Vec<u8> = Vec::new();
    let mut i: usize = 0;
    while i < digits.len() / 2
        invariant
            i <= digits@.len() / 2,
            digits@.len() % 2 == 0,
            all_lower_hex(digits@),
            bytes@ == unhex(digits@).subrange(0, i as int),
        decreases digits@.len() / 2 - i,
    {
        assert(is_lower_hex(digits@[2 * i]) && is_lower_hex(digits@[2 * i + 1]));
        let high: u8 = hex_digit_value(digits[2 * i]);
        let low: u8 = hex_digit_value(digits[2 * i + 1]);
        bytes.push(high * 16 + low);
        i += 1;
        proof {
            assert(bytes@ =~= unhex(digits@).subrange(0, i as int));
        }
    }
    proof {
        assert(unhex(digits@).subrange(0, i as int) =~= unhex(digits@));
    }
    bytes
}

fn hex_digit_value(byte: u8) -> (value: u8)
    requires
        is_lower_hex(byte),
    ensures
        digit_value(byte) == Some(value),
        value < 16,
{
    if byte <= 57 {
        byte - 48
    } else {
        byte - 87
    }
}

/// Decimal notation without leading zeros.
pub open spec fn decimal_text(value: nat) -> Seq<char>
    decreases value,
{
    if value < 10 {
        seq![digit_char(value as int)]
    } else {
        decimal_text(value / 10).push(digit_char((value % 10) as int))
    }
}

/// The number that a row of decimal digits stands for.
pub open spec fn decimal_value(digits: Seq<u8>) -> nat
    decreases digits.len(),
{
    if digits.len() == 0 {
        0
    } else {
        decimal_value(digits.drop_last()) * 10 + (digits.last() - 48) as nat
    }
}

/// Decimal notation is a row of digits that stands for the number that was written.
pub proof fn lemma_decimal_text(value: nat)
    ensures
        is_ascii_chars(decimal_text(value)),
        decimal_text(value).len() >= 1,
        all_digits(utf8(decimal_text(value))),
        decimal_value(utf8(decimal_text(value))) == value,
    decreases value,
{
    let text = decimal_text(value);
    if value < 10 {
        assert(is_ascii_chars(text));
        lemma_utf8_ascii(text);
        let digits = utf8(text);
        assert(digits[0] == text[0] as u8);
        assert(digits.drop_last() =~= Seq::<u8>::empty());
        assert(digits.last() == digits[0]);
        assert(decimal_value(digits.drop_last()) == 0);
    } else {
        let earlier = decimal_text(value / 10);
        lemma_decimal_text(value / 10);
        assert(is_ascii_chars(text));
        lemma_utf8_ascii(text);
        lemma_utf8_ascii(earlier);
        let digits = utf8(text);
        assert forall|i: int| 0 <= i < digits.len() implies is_digit(#[trigger] digits[i]) by {
            assert(digits[i] == text[i] as u8);
            if i < earlier.len() {
                assert(text[i] == earlier[i]);
                assert(utf8(earlier)[i] == earlier[i] as u8);
                assert(is_digit(utf8(earlier)[i]));
            }
        }
        assert forall|i: int| 0 <= i < earlier.len() implies digits.drop_last()[i] == utf8(earlier)[i] by {
            assert(digits[i] == text[i] as u8);
            assert(text[i] == earlier[i]);
        }
        assert(digits.drop_last() =~= utf8(earlier));
        assert(digits.last() == text.last() as u8);
    }
}

pub fn to_decimal(value: u64) -> (text: String)
    ensures
        text@ == decimal_text(value as nat),
    decreases value,
{
    let mut text = if value < 10 {
        String::new()
    } else {
        to_decimal(value / 10)
    };
    text.append(digit_text((value % 10) as u8));
    proof {
        assert(text@ =~= decimal_text(value as nat));
    }
    text
}

pub proof fn lemma_decimal_value_monotone(digits: Seq<u8>, upto: int)
    requires
        0 <= upto <= digits.len(),
        all_digits(digits),
    ensures
        decimal_value(digits.subrange(0, upto)) <= decimal_value(digits),
    decreases digits.len(),
{
    if upto == digits.len() {
        assert(digits.subrange(0, upto) =~= digits);
    } else {
        let earlier = digits.drop_last();
        assert forall|i: int| 0 <= i < earlier.len() implies is_digit(#[trigger] earlier[i]) by {
            assert(digits[i] == earlier[i]);
        }
        lemma_decimal_value_monotone(earlier, upto);
        assert(earlier.subrange(0, upto) =~= digits.subrange(0, upto));
        assert(is_digit(digits[digits.len() - 1]));
    }
}

/// The number that a row of digits stands for, where it is at most `limit`.
pub fn read_decimal(digits: &[u8], limit: u64) -> (value: Option<u64>)
    requires
        all_digits(digits@),
    ensures
        value == (if decimal_value(digits@) <= limit {
            Some(decimal_value(digits@) as u64)
        } else {
            None
        }),
{
    let mut value: u64 = 0;
    let mut i: usize = 0;
    while i < digits.len()
        invariant
            i <= digits@.len(),
            all_digits(digits@),
            value == decimal_value(digits@.subrange(0, i as int)),
            value <= limit,
        decreases digits@.len() - i,
    {
        assert(is_digit(digits@[i as int]));
        let digit: u64 = (digits[i] - 48) as u64;
        proof {
            let next = digits@.subrange(0, i + 1);
            assert(next.drop_last() =~= digits@.subrange(0, i as int));
            assert(next.last() == digits@[i as int]);
            lemma_decimal_value_monotone(digits@, i + 1);
        }
        if value > limit / 10 || (value == limit / 10 && digit > limit % 10) {
            return None;
        }
        value = value * 10 + digit;
        i += 1;
    }
    proof {
        assert(digits@.subrange(0, i as int) =~= digits@);
    }
    Some(value)
}

/// Notation in a base of up to sixteen, without leading zeros.
pub open spec fn radix_text(value: nat, base: nat) -> Seq<char>
    decreases value,
{
    if base < 2 || value < base {
        seq![digit_char(value as int)]
    } else {
        proof {
            assert(value / base < value) by (nonlinear_arith)
                requires
                    base >= 2,
                    value >= base,
            ;
        }
        radix_text(value / base, base).push(digit_char((value % base) as int))
    }
}

fn to_radix(value: u64, base: u64) -> (text: String)
    requires
        2 <= base <= 16,
    ensures
        text@ == radix_text(value as nat, base as nat),
    decreases value,
{
    proof {
        assert(value >= base ==> value / base < value) by (nonlinear_arith)
            requires
                base >= 2,
        ;
        assert(value % base < base) by (nonlinear_arith)
            requires
                base >= 2,
        ;
    }
    let mut text = if value < base {
        String::new()
    } else {
        to_radix(value / base, base)
    };
    text.append(digit_text((value % base) as u8));
    proof {
        if value < base {
            assert(value % base == value) by (nonlinear_arith)
                requires
                    value < base,
            ;
        }
        assert(text@ =~= radix_text(value as nat, base as nat));
    }
    text
}

/// Octal notation, as modes are written.
pub fn to_octal(value: u64) -> (text: String)
    ensures
        text@ == radix_text(value as nat, 8),
{
    to_radix(value, 8)
}

/// Hexadecimal notation without leading zeros.
pub fn to_short_hex(value: u64) -> (text: String)
    ensures
        text@ == radix_text(value as nat, 16),
{
    to_radix(value, 16)
}

/// The `width` low bytes of `value`, the high one first.
pub open spec fn big_endian(value: nat, width: nat) -> Seq<u8>
    decreases width,
{
    if width == 0 {
        Seq::empty()
    } else {
        big_endian(value / 256, (width - 1) as nat).push((value % 256) as u8)
    }
}

pub open spec fn pow256(width: nat) -> nat
    decreases width,
{
    if width == 0 {
        1
    } else {
        256 * pow256((width - 1) as nat)
    }
}

/// Fixed-width big-endian notation tells the values apart that fit in it.
pub proof fn lemma_big_endian(left: nat, right: nat, width: nat)
    ensures
        big_endian(left, width).len() == width,
        left < pow256(width) && right < pow256(width) && big_endian(left, width) == big_endian(
            right,
            width,
        ) ==> left == right,
    decreases width,
{
    if width > 0 {
        lemma_big_endian(left / 256, right / 256, (width - 1) as nat);
        lemma_big_endian(right / 256, left / 256, (width - 1) as nat);
        let l = big_endian(left, width);
        let r = big_endian(right, width);
        if l == r {
            assert(l.last() == r.last());
            assert(l.drop_last() =~= big_endian(left / 256, (width - 1) as nat));
            assert(r.drop_last() =~= big_endian(right / 256, (width - 1) as nat));
        }
    }
}

pub fn to_big_endian(value: u64, width: usize) -> (bytes: Vec<u8>)
    requires
        width <= 8,
    ensures
        bytes@ == big_endian(value as nat, width as nat),
    decreases width,
{
    if width == 0 {
        let bytes: Vec<u8> = Vec::new();
        proof {
            assert(bytes@ =~= big_endian(value as nat, 0));
        }
        bytes
    } else {
        let mut bytes = to_big_endian(value / 256, width - 1);
        bytes.push((value % 256) as u8);
        bytes
    }
}

/// A length-prefixed field: its length in eight big-endian bytes, then the field.
pub open spec fn frame(field: Seq<u8>) -> Seq<u8> {
    big_endian(field.len(), 8) + field
}

/// The frames of the fields, one behind another.
pub open spec fn framed(fields: Seq<Seq<u8>>) -> Seq<u8>
    decreases fields.len(),
{
    if fields.len() == 0 {
        Seq::empty()
    } else {
        framed(fields.drop_last()) + frame(fields.last())
    }
}

/// The same, taken from the front.
pub proof fn lemma_framed_front(fields: Seq<Seq<u8>>)
    requires
        fields.len() > 0,
    ensures
        framed(fields) == frame(fields[0]) + framed(fields.subrange(1, fields.len() as int)),
    decreases fields.len(),
{
    let rest = fields.subrange(1, fields.len() as int);
    if fields.len() == 1 {
        assert(fields.drop_last() =~= Seq::<Seq<u8>>::empty());
        assert(rest =~= Seq::<Seq<u8>>::empty());
        assert(framed(fields) =~= frame(fields[0]) + framed(rest));
    } else {
        lemma_framed_front(fields.drop_last());
        assert(fields.drop_last().subrange(1, fields.len() - 1) =~= rest.drop_last());
        assert(fields.drop_last()[0] == fields[0]);
        assert(rest.last() == fields.last());
        assert(framed(fields) =~= frame(fields[0]) + framed(rest));
    }
}

/// Length-prefixed framing is unambiguous: lists of fields with the same frames are the same list.
pub proof fn law_framing_is_injective(left: Seq<Seq<u8>>, right: Seq<Seq<u8>>)
    requires
        forall|i: int| 0 <= i < left.len() ==> (#[trigger] left[i]).len() < pow256(8),
        forall|i: int| 0 <= i < right.len() ==> (#[trigger] right[i]).len() < pow256(8),
        framed(left) == framed(right),
    ensures
        left == right,
    decreases left.len(),
{
    if left.len() == 0 {
        if right.len() > 0 {
            lemma_framed_front(right);
            lemma_big_endian(right[0].len(), 0, 8);
            assert(framed(left).len() == 0);
            assert(false);
        }
        assert(left =~= right);
    } else {
        lemma_framed_front(left);
        lemma_big_endian(left[0].len(), 0, 8);
        if right.len() == 0 {
            assert(framed(right).len() == 0);
            assert(false);
        }
        lemma_framed_front(right);
        let l = framed(left);
        let r = framed(right);
        lemma_big_endian(left[0].len(), right[0].len(), 8);
        lemma_big_endian(right[0].len(), left[0].len(), 8);
        assert(l.subrange(0, 8) =~= big_endian(left[0].len(), 8));
        assert(r.subrange(0, 8) =~= big_endian(right[0].len(), 8));
        let n = left[0].len() as int;
        assert(l.subrange(8, 8 + n) =~= left[0]);
        assert(r.subrange(8, 8 + n) =~= right[0]);
        let left_rest = left.subrange(1, left.len() as int);
        let right_rest = right.subrange(1, right.len() as int);
        assert(l.subrange(8 + n, l.len() as int) =~= framed(left_rest));
        assert(r.subrange(8 + n, r.len() as int) =~= framed(right_rest));
        assert forall|i: int| 0 <= i < left_rest.len() implies (#[trigger] left_rest[i]).len()
            < pow256(8) by {
            assert(left_rest[i] == left[i + 1]);
        }
        assert forall|i: int| 0 <= i < right_rest.len() implies (#[trigger] right_rest[i]).len()
            < pow256(8) by {
            assert(right_rest[i] == right[i + 1]);
        }
        law_framing_is_injective(left_rest, right_rest);
        assert(left =~= seq![left[0]] + left_rest);
        assert(right =~= seq![right[0]] + right_rest);
    }
}

/// Adds one length-prefixed field to a message.
pub fn push_frame(message: &mut Vec<u8>, field: &[u8])
    ensures
        final(message)@ == old(message)@ + frame(field@),
{
    let length = to_big_endian(field.len() as u64, 8);
    append(message, length.as_slice());
    append(message, field);
    proof {
        assert(message@ =~= old(message)@ + frame(field@));
    }
}

} // verus!
