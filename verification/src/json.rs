//! JSON as the kernel reads and writes it.

use vstd::prelude::*;
use vstd::utf8::encode_utf8;

use crate::base64::{ascii_text, base64_of, encoded_group};
use crate::digest::hex_of;
use crate::text::{decimal, decimal_digits};

verus! {

/// Whether miniserde reads a text as one JSON value.
pub uninterp spec fn is_json_text(text: Seq<char>) -> bool;

/// Where a reader of JSON stands: in a string, behind a backslash in one, or
/// outside of strings behind a run of digits.
pub enum JsonPlace {
    InString,
    Escaped,
    Outside { digits: nat },
}

/// Where a reader stands behind one more byte.
pub open spec fn json_step(place: JsonPlace, byte: u8) -> JsonPlace {
    match place {
        JsonPlace::Escaped => JsonPlace::InString,
        JsonPlace::InString => if byte == 0x5c {
            JsonPlace::Escaped
        } else if byte == 0x22 {
            JsonPlace::Outside { digits: 0 }
        } else {
            JsonPlace::InString
        },
        JsonPlace::Outside { digits } => if byte == 0x22 {
            JsonPlace::InString
        } else if 0x30 <= byte <= 0x39 {
            JsonPlace::Outside { digits: digits + 1 }
        } else {
            JsonPlace::Outside { digits: 0 }
        },
    }
}

/// Where a reader stands behind `bytes`.
pub open spec fn json_place(bytes: Seq<u8>) -> JsonPlace
    decreases bytes.len(),
{
    if bytes.len() == 0 {
        JsonPlace::Outside { digits: 0 }
    } else {
        json_step(json_place(bytes.drop_last()), bytes.last())
    }
}

/// Whether a reader has not passed more digits in a row than an `i32` counts.
pub open spec fn digits_counted(place: JsonPlace) -> bool {
    place matches JsonPlace::Outside { digits } ==> digits <= i32::MAX
}

/// Whether no number has more digits in a row than an `i32` counts. Digits in
/// strings are no number's.
pub open spec fn numbers_fit(bytes: Seq<u8>) -> bool {
    forall|end: int|
        0 <= end <= bytes.len() ==> digits_counted(json_place(#[trigger] bytes.take(end)))
}

/// Whether no number has more digits in a row than an `i32` counts.
pub fn numbers_ok(bytes: &[u8]) -> (ok: bool)
    ensures
        ok == numbers_fit(bytes@),
{
    let mut in_string = false;
    let mut escaped = false;
    let mut digits: usize = 0;
    let mut index: usize = 0;
    assert(bytes@.take(0) =~= Seq::empty());
    while index < bytes.len()
        invariant
            index <= bytes.len(),
            digits <= index,
            digits <= i32::MAX,
            escaped ==> in_string,
            json_place(bytes@.take(index as int)) == (if escaped {
                JsonPlace::Escaped
            } else if in_string {
                JsonPlace::InString
            } else {
                JsonPlace::Outside { digits: digits as nat }
            }),
            forall|end: int|
                0 <= end <= index ==> digits_counted(json_place(#[trigger] bytes@.take(end))),
        decreases bytes.len() - index,
    {
        let byte: u8 = bytes[index];
        proof {
            let longer = bytes@.take(index as int + 1);
            assert(longer.drop_last() =~= bytes@.take(index as int));
            assert(longer.last() == byte);
        }
        if escaped {
            escaped = false;
        } else if in_string {
            if byte == 0x5c {
                escaped = true;
            } else if byte == 0x22 {
                in_string = false;
                digits = 0;
            }
        } else if byte == 0x22 {
            in_string = true;
        } else if 0x30 <= byte && byte <= 0x39 {
            if digits >= i32::MAX as usize {
                assert(!digits_counted(json_place(bytes@.take(index as int + 1))));
                return false;
            }
            digits += 1;
        } else {
            digits = 0;
        }
        index += 1;
    }
    true
}

/// `miniserde::json::from_str` into its generic `Value`, reduced to whether it
/// succeeds. The outcome depends on the text alone and is the value
/// [`is_json_text`] names. The reader counts the digits of a long number in an
/// `i32` without a check, so a number has no more of them than that counts.
#[verifier::external_body]
pub(crate) fn json_accepts(text: &str) -> (accepted: bool)
    requires
        numbers_fit(encode_utf8(text@)),
    ensures
        accepted == is_json_text(text@),
{
    miniserde::json::from_str::<miniserde::json::Value>(text).is_ok()
}

/// Whether a text is printable ASCII without a quotation mark or a backslash.
pub open spec fn is_plain_text(text: Seq<char>) -> bool {
    forall|i: int|
        0 <= i < text.len() ==> ' ' <= #[trigger] text[i] <= '~' && text[i] != '"' && text[i]
            != '\\'
}

/// `miniserde::json::to_string` on a plain text: it escapes nothing in one, so
/// the result is the text between quotation marks.
#[verifier::external_body]
pub(crate) fn json_string(text: &str) -> (json: String)
    requires
        is_plain_text(text@),
    ensures
        json@ == seq!['"'] + text@ + seq!['"'],
{
    miniserde::json::to_string(text)
}

/// A text between quotation marks.
pub open spec fn quoted(text: Seq<char>) -> Seq<char> {
    seq!['"'] + text + seq!['"']
}

proof fn lemma_digits_are_plain(value: nat)
    ensures
        is_plain_text(decimal_digits(value)),
    decreases value,
{
    if value >= 10 {
        lemma_digits_are_plain(value / 10);
    }
}

pub proof fn lemma_decimal_is_plain(value: int)
    ensures
        is_plain_text(decimal(value)),
{
    if value < 0 {
        lemma_digits_are_plain((-value) as nat);
    } else {
        lemma_digits_are_plain(value as nat);
    }
}

pub proof fn lemma_hex_is_plain(bytes: Seq<u8>)
    ensures
        is_plain_text(hex_of(bytes)),
{
}

pub proof fn lemma_base64_is_plain(bytes: Seq<u8>)
    ensures
        is_plain_text(ascii_text(base64_of(bytes))),
    decreases bytes.len(),
{
    if bytes.len() > 3 {
        lemma_base64_is_plain(bytes.skip(3));
        let head = encoded_group(bytes.take(3));
        let rest = base64_of(bytes.skip(3));
        assert(is_plain_text(ascii_text(head)));
        assert(ascii_text(head + rest) =~= ascii_text(head) + ascii_text(rest));
    }
}

/// No text of up to 2 147 483 647 bytes holds a run of digits too long to be
/// counted.
pub proof fn law_short_text_is_counted(bytes: Seq<u8>)
    requires
        bytes.len() <= i32::MAX,
    ensures
        numbers_fit(bytes),
{
    assert forall|end: int| 0 <= end <= bytes.len() implies digits_counted(
        json_place(#[trigger] bytes.take(end)),
    ) by {
        lemma_digits_are_bytes(bytes.take(end));
    }
}

proof fn lemma_digits_are_bytes(bytes: Seq<u8>)
    ensures
        json_place(bytes) matches JsonPlace::Outside { digits } ==> digits <= bytes.len(),
    decreases bytes.len(),
{
    if bytes.len() > 0 {
        lemma_digits_are_bytes(bytes.drop_last());
    }
}

/// A run of digits outside any string is counted byte by byte, and one that is
/// too long is refused.
pub proof fn law_long_runs_are_not_counted(digits: Seq<u8>, rest: Seq<u8>)
    requires
        digits.len() > i32::MAX,
        forall|i: int| 0 <= i < digits.len() ==> 48 <= #[trigger] digits[i] <= 57,
    ensures
        !numbers_fit(digits + rest),
{
    lemma_run_is_counted(digits);
    assert((digits + rest).take(digits.len() as int) =~= digits);
}

proof fn lemma_run_is_counted(digits: Seq<u8>)
    requires
        forall|i: int| 0 <= i < digits.len() ==> 48 <= #[trigger] digits[i] <= 57,
    ensures
        json_place(digits) == (JsonPlace::Outside { digits: digits.len() }),
    decreases digits.len(),
{
    if digits.len() > 0 {
        let front = digits.drop_last();
        assert forall|i: int| 0 <= i < front.len() implies 48 <= #[trigger] front[i] <= 57 by {
            assert(front[i] == digits[i]);
        }
        lemma_run_is_counted(front);
        assert(48 <= digits[digits.len() - 1] <= 57);
    }
}

/// Quoted text stands between two quotation marks.
pub proof fn law_quoted_text_is_between_marks(text: Seq<char>)
    ensures
        quoted(text).len() == text.len() + 2,
        quoted(text)[0] == '"',
        quoted(text).last() == '"',
        quoted(text).subrange(1, (text.len() + 1) as int) == text,
{
    assert(quoted(text).subrange(1, (text.len() + 1) as int) =~= text);
}

} // verus!
