//! Number literals: the texts that are read back as numbers.
//!
//! A number literal is written as JSON writes a number: an optional minus; a
//! zero, or digits that do not begin with a zero; optionally a point and
//! digits; optionally an `e` or `E`, an optional sign, and digits.

use vstd::prelude::*;
use vstd::string::*;
use vstd::utf8::*;

verus! {

/// The byte of `0`.
pub const ZERO: u8 = 48;

/// The byte of `9`.
pub const NINE: u8 = 57;

/// The byte of `-`.
pub const MINUS: u8 = 45;

/// The byte of `+`.
pub const PLUS: u8 = 43;

/// The byte of `.`.
pub const POINT: u8 = 46;

/// The byte of `e`.
pub const LOWER_E: u8 = 101;

/// The byte of `E`.
pub const UPPER_E: u8 = 69;

/// Whether the byte is a digit.
pub open spec fn is_digit(byte: u8) -> bool {
    ZERO <= byte <= NINE
}

/// Whether the bytes are digits, all of them.
pub open spec fn all_digits(bytes: Seq<u8>) -> bool {
    forall|i: int| 0 <= i < bytes.len() ==> is_digit(#[trigger] bytes[i])
}

/// The sign of a number: nothing, or a minus.
pub open spec fn is_sign_part(bytes: Seq<u8>) -> bool {
    bytes.len() == 0 || (bytes.len() == 1 && bytes[0] == MINUS)
}

/// The integer part of a number: a single zero, or digits that do not begin
/// with a zero.
pub open spec fn is_integer_part(bytes: Seq<u8>) -> bool {
    &&& bytes.len() >= 1
    &&& all_digits(bytes)
    &&& bytes[0] == ZERO ==> bytes.len() == 1
}

/// The fraction of a number: nothing, or a point and at least one digit.
pub open spec fn is_fraction_part(bytes: Seq<u8>) -> bool {
    bytes.len() == 0 || (bytes.len() >= 2 && bytes[0] == POINT && all_digits(bytes.skip(1)))
}

/// The exponent of a number: nothing, or an `e` or `E`, an optional sign,
/// and at least one digit.
pub open spec fn is_exponent_part(bytes: Seq<u8>) -> bool {
    bytes.len() == 0 || {
        &&& bytes[0] == LOWER_E || bytes[0] == UPPER_E
        &&& {
            let signed = bytes.len() >= 2 && (bytes[1] == PLUS || bytes[1] == MINUS);
            let digits = if signed {
                bytes.skip(2)
            } else {
                bytes.skip(1)
            };
            digits.len() >= 1 && all_digits(digits)
        }
    }
}

/// Whether the bytes are a number when cut at the three places: sign,
/// integer part, fraction and exponent, in this order and nothing else.
pub open spec fn splits_as_number(bytes: Seq<u8>, integer: int, fraction: int, exponent: int) -> bool {
    &&& 0 <= integer <= fraction <= exponent <= bytes.len()
    &&& is_sign_part(bytes.subrange(0, integer))
    &&& is_integer_part(bytes.subrange(integer, fraction))
    &&& is_fraction_part(bytes.subrange(fraction, exponent))
    &&& is_exponent_part(bytes.subrange(exponent, bytes.len() as int))
}

/// Whether the bytes are a number literal.
pub open spec fn is_number_bytes(bytes: Seq<u8>) -> bool {
    exists|integer: int, fraction: int, exponent: int|
        splits_as_number(bytes, integer, fraction, exponent)
}

/// Whether the text is a number literal.
pub open spec fn is_number_text(text: Seq<char>) -> bool {
    is_number_bytes(encode_utf8(text))
}

/// No number literal is empty.
pub proof fn lemma_number_is_not_empty(text: Seq<char>)
    ensures
        is_number_text(text) ==> text.len() > 0,
{
    if text.len() == 0 {
        assert(encode_utf8(text) =~= Seq::<u8>::empty()) by {
            reveal_with_fuel(encode_utf8, 1);
        }
        assert forall|integer: int, fraction: int, exponent: int|
            !splits_as_number(encode_utf8(text), integer, fraction, exponent) by {}
    }
}

/// Whether there is a digit at the place.
spec fn digit_at(bytes: Seq<u8>, at: int) -> bool {
    0 <= at < bytes.len() && is_digit(bytes[at])
}

/// Whether `byte` is at the place.
spec fn byte_at(bytes: Seq<u8>, at: int, byte: u8) -> bool {
    0 <= at < bytes.len() && bytes[at] == byte
}

/// The place after the digits that begin at `from`; `from` itself where
/// none does.
spec fn digits_end(bytes: Seq<u8>, from: int) -> int
    decreases bytes.len() - from,
{
    if digit_at(bytes, from) {
        digits_end(bytes, from + 1)
    } else {
        from
    }
}

/// The digits that begin at `from` end inside the text, where no digit
/// follows.
proof fn lemma_digits_end(bytes: Seq<u8>, from: int)
    requires
        0 <= from <= bytes.len(),
    ensures
        from <= digits_end(bytes, from) <= bytes.len(),
        all_digits(bytes.subrange(from, digits_end(bytes, from))),
        !digit_at(bytes, digits_end(bytes, from)),
    decreases bytes.len() - from,
{
    if digit_at(bytes, from) {
        lemma_digits_end(bytes, from + 1);
        let end = digits_end(bytes, from);
        assert forall|i: int| 0 <= i < end - from implies is_digit(
            #[trigger] bytes.subrange(from, end)[i],
        ) by {
            if i > 0 {
                assert(bytes.subrange(from, end)[i] == bytes.subrange(from + 1, end)[i - 1]);
            }
        }
    }
}

/// Digits from `from` up to a place where no digit stands end at that place.
proof fn lemma_digits_end_at(bytes: Seq<u8>, from: int, end: int)
    requires
        0 <= from <= end <= bytes.len(),
        all_digits(bytes.subrange(from, end)),
        !digit_at(bytes, end),
    ensures
        digits_end(bytes, from) == end,
    decreases end - from,
{
    if from < end {
        assert(bytes.subrange(from, end)[0] == bytes[from]);
        assert forall|i: int| 0 <= i < end - (from + 1) implies is_digit(
            #[trigger] bytes.subrange(from + 1, end)[i],
        ) by {
            assert(bytes.subrange(from + 1, end)[i] == bytes.subrange(from, end)[i + 1]);
        }
        lemma_digits_end_at(bytes, from + 1, end);
    }
}

/// The place after the minus that may begin the text.
spec fn sign_end(bytes: Seq<u8>) -> int {
    if byte_at(bytes, 0, MINUS) {
        1
    } else {
        0
    }
}

/// The place after the integer part that begins at `from`, if one does.
spec fn integer_end(bytes: Seq<u8>, from: int) -> Option<int> {
    if !digit_at(bytes, from) {
        None
    } else if bytes[from] == ZERO {
        Some(from + 1)
    } else {
        Some(digits_end(bytes, from))
    }
}

/// The place after the fraction that may begin at `from`; `None` where a
/// point is followed by no digit.
spec fn fraction_end(bytes: Seq<u8>, from: int) -> Option<int> {
    if byte_at(bytes, from, POINT) {
        if digit_at(bytes, from + 1) {
            Some(digits_end(bytes, from + 1))
        } else {
            None
        }
    } else {
        Some(from)
    }
}

/// The place where the digits of an exponent begin that begins at `from`.
spec fn exponent_digits(bytes: Seq<u8>, from: int) -> int {
    if byte_at(bytes, from + 1, PLUS) || byte_at(bytes, from + 1, MINUS) {
        from + 2
    } else {
        from + 1
    }
}

/// The place after the exponent that may begin at `from`; `None` where its
/// digits are missing.
spec fn exponent_end(bytes: Seq<u8>, from: int) -> Option<int> {
    if byte_at(bytes, from, LOWER_E) || byte_at(bytes, from, UPPER_E) {
        if digit_at(bytes, exponent_digits(bytes, from)) {
            Some(digits_end(bytes, exponent_digits(bytes, from)))
        } else {
            None
        }
    } else {
        Some(from)
    }
}

/// Whether reading the parts one after another, each as far as it goes, ends
/// at the end of the bytes.
spec fn reads_as_number(bytes: Seq<u8>) -> bool {
    match integer_end(bytes, sign_end(bytes)) {
        Some(fraction) => match fraction_end(bytes, fraction) {
            Some(exponent) => exponent_end(bytes, exponent) == Some(bytes.len() as int),
            None => false,
        },
        None => false,
    }
}

/// What is read as a number splits as one.
proof fn lemma_read_splits(bytes: Seq<u8>)
    requires
        reads_as_number(bytes),
    ensures
        is_number_bytes(bytes),
{
    let integer = sign_end(bytes);
    let fraction = integer_end(bytes, integer).unwrap();
    lemma_digits_end(bytes, integer);
    let exponent = fraction_end(bytes, fraction).unwrap();
    if byte_at(bytes, fraction, POINT) {
        lemma_digits_end(bytes, fraction + 1);
        assert(bytes.subrange(fraction, exponent).skip(1) =~= bytes.subrange(
            fraction + 1,
            exponent,
        ));
    }
    let rest = bytes.subrange(exponent, bytes.len() as int);
    if byte_at(bytes, exponent, LOWER_E) || byte_at(bytes, exponent, UPPER_E) {
        let digits = exponent_digits(bytes, exponent);
        lemma_digits_end(bytes, digits);
        assert(rest.skip(digits - exponent) =~= bytes.subrange(digits, bytes.len() as int));
        if digits == exponent + 1 {
            assert(!(rest.len() >= 2 && (rest[1] == PLUS || rest[1] == MINUS)));
        }
    }
    if bytes[integer] == ZERO {
        assert(bytes.subrange(integer, fraction) =~= seq![ZERO]);
    }
    assert(splits_as_number(bytes, integer, fraction, exponent));
}

/// What splits as a number is read as one.
proof fn lemma_split_reads(bytes: Seq<u8>, integer: int, fraction: int, exponent: int)
    requires
        splits_as_number(bytes, integer, fraction, exponent),
    ensures
        reads_as_number(bytes),
{
    let len = bytes.len() as int;
    let sign = bytes.subrange(0, integer);
    let whole = bytes.subrange(integer, fraction);
    let part = bytes.subrange(fraction, exponent);
    let rest = bytes.subrange(exponent, len);
    assert(whole[0] == bytes[integer]);
    if integer == 1 {
        assert(sign[0] == bytes[0]);
    }
    assert(sign_end(bytes) == integer);
    // What follows the integer part is no digit.
    if part.len() > 0 {
        assert(part[0] == bytes[fraction]);
        assert(part.skip(1) =~= bytes.subrange(fraction + 1, exponent));
        assert(part.skip(1)[0] == bytes[fraction + 1]);
    } else if rest.len() > 0 {
        assert(rest[0] == bytes[fraction]);
    }
    assert(!digit_at(bytes, fraction));
    if whole[0] != ZERO {
        lemma_digits_end_at(bytes, integer, fraction);
    }
    assert(integer_end(bytes, integer) == Some(fraction));
    // What follows the fraction is no digit.
    if rest.len() > 0 {
        assert(rest[0] == bytes[exponent]);
    }
    assert(!digit_at(bytes, exponent));
    if part.len() > 0 {
        lemma_digits_end_at(bytes, fraction + 1, exponent);
    } else {
        assert(!byte_at(bytes, fraction, POINT));
    }
    assert(fraction_end(bytes, fraction) == Some(exponent));
    if rest.len() > 0 {
        let signed = rest.len() >= 2 && (rest[1] == PLUS || rest[1] == MINUS);
        if rest.len() >= 2 {
            assert(rest[1] == bytes[exponent + 1]);
        }
        let digits = if signed { exponent + 2 } else { exponent + 1 };
        assert(rest.skip(digits - exponent) =~= bytes.subrange(digits, len));
        assert(rest.skip(digits - exponent)[0] == bytes[digits]);
        assert(exponent_digits(bytes, exponent) == digits);
        lemma_digits_end_at(bytes, digits, len);
    }
    assert(exponent_end(bytes, exponent) == Some(len));
}

/// The bytes are a number literal exactly where they are read as one.
proof fn lemma_number_is_read(bytes: Seq<u8>)
    ensures
        is_number_bytes(bytes) == reads_as_number(bytes),
{
    if reads_as_number(bytes) {
        lemma_read_splits(bytes);
    }
    if is_number_bytes(bytes) {
        let (integer, fraction, exponent) = choose|integer: int, fraction: int, exponent: int|
            splits_as_number(bytes, integer, fraction, exponent);
        lemma_split_reads(bytes, integer, fraction, exponent);
    }
}

/// The place after the digits that begin at `from`.
fn skip_digits(bytes: &[u8], from: usize) -> (end: usize)
    requires
        from <= bytes.len(),
    ensures
        end == digits_end(bytes@, from as int),
        from <= end <= bytes.len(),
{
    let mut end = from;
    while end < bytes.len() && ZERO <= bytes[end] && bytes[end] <= NINE
        invariant
            from <= end <= bytes.len(),
            digits_end(bytes@, from as int) == digits_end(bytes@, end as int),
        decreases bytes.len() - end,
    {
        end += 1;
    }
    end
}

/// Whether there is a digit at the place.
fn has_digit_at(bytes: &[u8], at: usize) -> (found: bool)
    ensures
        found == digit_at(bytes@, at as int),
{
    at < bytes.len() && ZERO <= bytes[at] && bytes[at] <= NINE
}

/// Whether `byte` is at the place.
fn has_byte_at(bytes: &[u8], at: usize, byte: u8) -> (found: bool)
    ensures
        found == byte_at(bytes@, at as int, byte),
{
    at < bytes.len() && bytes[at] == byte
}

/// Whether the text is a number literal.
pub fn is_number(text: &str) -> (number: bool)
    ensures
        number == is_number_text(text@),
{
    let bytes = text.as_bytes();
    proof {
        assert(bytes@ == encode_utf8(text@));
        lemma_number_is_read(bytes@);
    }
    let start: usize = if has_byte_at(bytes, 0, MINUS) {
        1
    } else {
        0
    };
    if !has_digit_at(bytes, start) {
        return false;
    }
    let integer = if bytes[start] == ZERO {
        start + 1
    } else {
        skip_digits(bytes, start)
    };
    let fraction = if has_byte_at(bytes, integer, POINT) {
        if !has_digit_at(bytes, integer + 1) {
            return false;
        }
        skip_digits(bytes, integer + 1)
    } else {
        integer
    };
    if has_byte_at(bytes, fraction, LOWER_E) || has_byte_at(bytes, fraction, UPPER_E) {
        let digits = if has_byte_at(bytes, fraction + 1, PLUS) || has_byte_at(
            bytes,
            fraction + 1,
            MINUS,
        ) {
            fraction + 2
        } else {
            fraction + 1
        };
        if !has_digit_at(bytes, digits) {
            return false;
        }
        skip_digits(bytes, digits) == bytes.len()
    } else {
        fraction == bytes.len()
    }
}

} // verus!
