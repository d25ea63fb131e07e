//! Text rules shared by every command: byte lengths, the command alphabet,
//! NUL-freeness, decimal rendering.

use vstd::prelude::*;
use vstd::string::StrSliceExecFns;
use vstd::utf8::{encode_utf8, valid_utf8};

verus! {

broadcast use vstd::string::group_string_axioms;

/// The standard library's `String::push`: the character is appended and
/// nothing else changes.
pub assume_specification[ String::push ](string: &mut String, character: char)
    ensures
        final(string)@ == old(string)@.push(character),
;

/// Whether `byte` may stand in a principal or a command ID.
pub open spec fn is_command_byte(byte: u8) -> bool {
    ||| 0x30 <= byte <= 0x39
    ||| 0x41 <= byte <= 0x5a
    ||| 0x61 <= byte <= 0x7a
    ||| byte == 0x2e
    ||| byte == 0x3a
    ||| byte == 0x5f
    ||| byte == 0x2d
}

/// A principal or command ID: one through 160 bytes of the command alphabet.
pub open spec fn is_command_component(value: Seq<char>) -> bool {
    let bytes = encode_utf8(value);
    &&& 1 <= bytes.len() <= 160
    &&& forall|i: int| 0 <= i < bytes.len() ==> is_command_byte(#[trigger] bytes[i])
}

/// Nonempty text of at most `maximum` bytes without a NUL byte.
pub open spec fn is_bounded_text(value: Seq<char>, maximum: int) -> bool {
    let bytes = encode_utf8(value);
    &&& 1 <= bytes.len() <= maximum
    &&& !bytes.contains(0u8)
}

/// The control characters of Unicode.
pub open spec fn is_control(character: char) -> bool {
    let code = character as int;
    code <= 0x1f || 0x7f <= code <= 0x9f
}

/// Text without a control character.
pub open spec fn is_printable(value: Seq<char>) -> bool {
    forall|i: int| 0 <= i < value.len() ==> !is_control(#[trigger] value[i])
}

/// The characters that carry the Unicode `White_Space` property.
pub open spec fn is_white_space(character: char) -> bool {
    let code = character as int;
    ||| 0x9 <= code <= 0xd
    ||| code == 0x20
    ||| code == 0x85
    ||| code == 0xa0
    ||| code == 0x1680
    ||| 0x2000 <= code <= 0x200a
    ||| code == 0x2028
    ||| code == 0x2029
    ||| code == 0x202f
    ||| code == 0x205f
    ||| code == 0x3000
}

/// Decimal digits of `value`, most significant first.
pub open spec fn decimal_digits(value: nat) -> Seq<char>
    decreases value,
{
    let digit = (('0' as nat) + value % 10) as char;
    if value < 10 {
        seq![digit]
    } else {
        decimal_digits(value / 10).push(digit)
    }
}

/// Decimal rendering of an integer, with a leading minus sign when negative.
pub open spec fn decimal(value: int) -> Seq<char> {
    if value < 0 {
        seq!['-'] + decimal_digits((-value) as nat)
    } else {
        decimal_digits(value as nat)
    }
}

/// Whether two byte slices hold the same bytes.
pub fn bytes_equal(left: &[u8], right: &[u8]) -> (equal: bool)
    ensures
        equal == (left@ == right@),
{
    if left.len() != right.len() {
        return false;
    }
    let mut index: usize = 0;
    while index < left.len()
        invariant
            index <= left.len(),
            left.len() == right.len(),
            forall|i: int| 0 <= i < index ==> left@[i] == right@[i],
        decreases left.len() - index,
    {
        if left[index] != right[index] {
            return false;
        }
        index += 1;
    }
    assert(left@ =~= right@);
    true
}

/// Whether two strings hold the same characters.
pub fn text_equal(left: &str, right: &str) -> (equal: bool)
    ensures
        equal == (left@ == right@),
{
    proof {
        vstd::utf8::encode_utf8_decode_utf8(left@);
        vstd::utf8::encode_utf8_decode_utf8(right@);
    }
    bytes_equal(left.as_bytes(), right.as_bytes())
}

/// Whether `value` is a legal principal or command ID.
pub fn command_component_ok(value: &str) -> (ok: bool)
    ensures
        ok == is_command_component(value@),
{
    let bytes = value.as_bytes();
    if bytes.len() == 0 || bytes.len() > 160 {
        return false;
    }
    let mut index: usize = 0;
    while index < bytes.len()
        invariant
            index <= bytes.len(),
            bytes@ == encode_utf8(value@),
            forall|i: int| 0 <= i < index ==> is_command_byte(#[trigger] bytes@[i]),
        decreases bytes.len() - index,
    {
        let byte: u8 = bytes[index];
        let letter = (0x41 <= byte && byte <= 0x5a) || (0x61 <= byte && byte <= 0x7a);
        let digit = 0x30 <= byte && byte <= 0x39;
        let mark = byte == 0x2e || byte == 0x3a || byte == 0x5f || byte == 0x2d;
        if !(letter || digit || mark) {
            assert(!is_command_byte(bytes@[index as int]));
            return false;
        }
        index += 1;
    }
    true
}

/// Whether `value` is nonempty, at most `maximum` bytes long and free of NUL.
pub fn bounded_text_ok(value: &str, maximum: usize) -> (ok: bool)
    ensures
        ok == is_bounded_text(value@, maximum as int),
{
    let bytes = value.as_bytes();
    if bytes.len() == 0 || bytes.len() > maximum {
        return false;
    }
    let mut index: usize = 0;
    while index < bytes.len()
        invariant
            index <= bytes.len(),
            bytes@ == encode_utf8(value@),
            forall|i: int| 0 <= i < index ==> bytes@[i] != 0,
        decreases bytes.len() - index,
    {
        if bytes[index] == 0 {
            assert(bytes@[index as int] == 0u8);
            return false;
        }
        index += 1;
    }
    true
}

/// Whether `value` is printable.
pub fn printable_ok(value: &str) -> (ok: bool)
    ensures
        ok == is_printable(value@),
{
    let length: usize = value.unicode_len();
    let mut index: usize = 0;
    while index < length
        invariant
            index <= length,
            length == value@.len(),
            forall|i: int| 0 <= i < index ==> !is_control(#[trigger] value@[i]),
        decreases length - index,
    {
        let code: u32 = value.get_char(index) as u32;
        if code <= 0x1f || (0x7f <= code && code <= 0x9f) {
            assert(is_control(value@[index as int]));
            return false;
        }
        index += 1;
    }
    true
}

/// Appends the bytes of `text` to `output`.
pub fn push_text(output: &mut Vec<u8>, text: &str)
    ensures
        final(output)@ == old(output)@ + encode_utf8(text@),
{
    push_bytes(output, text.as_bytes());
}

/// Appends `bytes` to `output`.
pub fn push_bytes(output: &mut Vec<u8>, bytes: &[u8])
    ensures
        final(output)@ == old(output)@ + bytes@,
{
    let mut index: usize = 0;
    while index < bytes.len()
        invariant
            index <= bytes.len(),
            output@ == old(output)@ + bytes@.take(index as int),
        decreases bytes.len() - index,
    {
        output.push(bytes[index]);
        assert(bytes@.take(index as int).push(bytes@[index as int]) =~= bytes@.take(
            index as int + 1,
        ));
        index += 1;
    }
    assert(bytes@.take(index as int) =~= bytes@);
}

/// The character of one decimal digit.
fn digit_character(digit: u64) -> (character: char)
    requires
        digit < 10,
    ensures
        character == (('0' as nat) + digit as nat) as char,
{
    match digit {
        0 => '0',
        1 => '1',
        2 => '2',
        3 => '3',
        4 => '4',
        5 => '5',
        6 => '6',
        7 => '7',
        8 => '8',
        _ => '9',
    }
}

/// Appends the decimal digits of `value`.
pub fn push_decimal_u64(output: &mut String, value: u64)
    ensures
        final(output)@ == old(output)@ + decimal(value as int),
    decreases value,
{
    if value >= 10 {
        push_decimal_u64(output, value / 10);
    }
    output.push(digit_character(value % 10));
    assert(output@ =~= old(output)@ + decimal(value as int));
}

/// Appends the decimal rendering of `value`.
pub fn push_decimal_i64(output: &mut String, value: i64)
    ensures
        final(output)@ == old(output)@ + decimal(value as int),
{
    if value < 0 {
        output.push('-');
        let magnitude: u64 = (-(value + 1)) as u64 + 1;
        push_decimal_u64(output, magnitude);
        assert(output@ =~= old(output)@ + decimal(value as int));
    } else {
        push_decimal_u64(output, value as u64);
    }
}

/// Decimal rendering of `value`.
pub fn decimal_i64(value: i64) -> (text: String)
    ensures
        text@ == decimal(value as int),
{
    let mut text = String::new();
    push_decimal_i64(&mut text, value);
    assert(text@ =~= decimal(value as int));
    text
}

/// Whether a text is made of decimal digits.
pub open spec fn only_digits(text: Seq<char>) -> bool {
    forall|i: int| 0 <= i < text.len() ==> '0' <= #[trigger] text[i] <= '9'
}

proof fn lemma_decimal_digits(value: nat)
    ensures
        only_digits(decimal_digits(value)),
        decimal_digits(value).len() > 0,
    decreases value,
{
    if value >= 10 {
        lemma_decimal_digits(value / 10);
    }
}

/// The value of a decimal digit.
spec fn digit_value(digit: char) -> nat {
    (digit as nat - '0' as nat) as nat
}

#[verifier::spinoff_prover]
proof fn lemma_last_digit(value: nat)
    ensures
        digit_value(decimal_digits(value).last()) == value % 10,
        value >= 10 ==> decimal_digits(value).drop_last() == decimal_digits(value / 10),
        value < 10 ==> decimal_digits(value).len() == 1,
        value >= 10 ==> decimal_digits(value).len() > 1,
{
    if value >= 10 {
        lemma_decimal_digits(value / 10);
        assert(decimal_digits(value).drop_last() =~= decimal_digits(value / 10));
    }
}

#[verifier::spinoff_prover]
proof fn lemma_decimal_digits_injective(left: nat, right: nat)
    requires
        decimal_digits(left) == decimal_digits(right),
    ensures
        left == right,
    decreases left,
{
    lemma_last_digit(left);
    lemma_last_digit(right);
    if left >= 10 && right >= 10 {
        lemma_decimal_digits_injective(left / 10, right / 10);
    }
}

/// Two texts of digits with no digit behind them are equal where the whole is.
#[verifier::spinoff_prover]
proof fn lemma_digits_end(left: Seq<char>, left_rest: Seq<char>, right: Seq<char>, right_rest: Seq<
    char,
>)
    requires
        only_digits(left),
        only_digits(right),
        left + left_rest == right + right_rest,
        left_rest.len() > 0 ==> !('0' <= left_rest[0] <= '9'),
        right_rest.len() > 0 ==> !('0' <= right_rest[0] <= '9'),
    ensures
        left == right,
        left_rest == right_rest,
{
    let l = left + left_rest;
    let r = right + right_rest;
    if left.len() < right.len() {
        assert(r[left.len() as int] == right[left.len() as int]);
        assert(l[left.len() as int] == left_rest[0]);
    }
    if right.len() < left.len() {
        assert(l[right.len() as int] == left[right.len() as int]);
        assert(r[right.len() as int] == right_rest[0]);
    }
    assert(left =~= l.take(left.len() as int));
    assert(right =~= r.take(right.len() as int));
    assert(left_rest =~= l.skip(left.len() as int));
    assert(right_rest =~= r.skip(right.len() as int));
}

/// An integer is read off its decimal rendering, also where a text that begins
/// with no digit stands behind it.
#[verifier::spinoff_prover]
pub proof fn law_decimal_is_read_back(left: int, left_rest: Seq<char>, right: int, right_rest: Seq<
    char,
>)
    requires
        decimal(left) + left_rest == decimal(right) + right_rest,
        left_rest.len() > 0 ==> !('0' <= left_rest[0] <= '9'),
        right_rest.len() > 0 ==> !('0' <= right_rest[0] <= '9'),
    ensures
        left == right,
        left_rest == right_rest,
{
    let left_size = (if left < 0 { -left } else { left }) as nat;
    let right_size = (if right < 0 { -right } else { right }) as nat;
    let dl = decimal_digits(left_size);
    let dr = decimal_digits(right_size);
    lemma_decimal_digits(left_size);
    lemma_decimal_digits(right_size);
    let l = decimal(left) + left_rest;
    let r = decimal(right) + right_rest;
    assert(l[0] == decimal(left)[0]);
    assert(r[0] == decimal(right)[0]);
    assert(left < 0 <==> l[0] == '-');
    assert(right < 0 <==> r[0] == '-');
    if left < 0 {
        assert(l.skip(1) =~= dl + left_rest);
        assert(r.skip(1) =~= dr + right_rest);
    }
    lemma_digits_end(dl, left_rest, dr, right_rest);
    lemma_decimal_digits_injective(left_size, right_size);
}

/// The standard library's `str::from_utf8`: it succeeds exactly on valid UTF-8,
/// and the text it returns has the given bytes.
#[verifier::external_body]
pub(crate) fn utf8_text(bytes: &[u8]) -> (text: Option<&str>)
    ensures
        match text {
            Some(text) => valid_utf8(bytes@) && encode_utf8(text@) == bytes@,
            None => !valid_utf8(bytes@),
        },
{
    std::str::from_utf8(bytes).ok()
}

/// Whether a text begins with `character`.
pub open spec fn begins_with(value: Seq<char>, character: char) -> bool {
    value.len() > 0 && value[0] == character
}

/// Whether `value` begins with `character`.
pub fn begins_with_character(value: &str, character: char) -> (begins: bool)
    ensures
        begins == begins_with(value@, character),
{
    value.unicode_len() > 0 && value.get_char(0) == character
}

/// Whether a text ends with `character`.
pub open spec fn ends_with(value: Seq<char>, character: char) -> bool {
    value.len() > 0 && value.last() == character
}

/// Whether `value` ends with `character`.
pub fn ends_with_character(value: &str, character: char) -> (ends: bool)
    ensures
        ends == ends_with(value@, character),
{
    let length: usize = value.unicode_len();
    length > 0 && value.get_char(length - 1) == character
}

/// Whether a text has a white-space character.
pub open spec fn has_white_space(value: Seq<char>) -> bool {
    exists|i: int| 0 <= i < value.len() && is_white_space(#[trigger] value[i])
}

/// Whether a text has two adjacent full stops.
pub open spec fn has_double_stop(value: Seq<char>) -> bool {
    exists|i: int| 0 <= i < value.len() - 1 && (#[trigger] value[i]) == '.' && value[i + 1] == '.'
}

fn white_space(character: char) -> (result: bool)
    ensures
        result == is_white_space(character),
{
    let code: u32 = character as u32;
    (0x9 <= code && code <= 0xd) || code == 0x20 || code == 0x85 || code == 0xa0 || code == 0x1680
        || (0x2000 <= code && code <= 0x200a) || code == 0x2028 || code == 0x2029 || code == 0x202f
        || code == 0x205f || code == 0x3000
}

/// Whether `value` has a white-space character.
pub fn contains_white_space(value: &str) -> (found: bool)
    ensures
        found == has_white_space(value@),
{
    let length: usize = value.unicode_len();
    let mut index: usize = 0;
    while index < length
        invariant
            index <= length,
            length == value@.len(),
            forall|i: int| 0 <= i < index ==> !is_white_space(#[trigger] value@[i]),
        decreases length - index,
    {
        let character = value.get_char(index);
        if white_space(character) {
            assert(is_white_space(value@[index as int]));
            return true;
        }
        index += 1;
    }
    false
}

/// Whether `value` has two adjacent full stops.
pub fn contains_double_stop(value: &str) -> (found: bool)
    ensures
        found == has_double_stop(value@),
{
    let length: usize = value.unicode_len();
    if length == 0 {
        return false;
    }
    let mut index: usize = 0;
    while index < length - 1
        invariant
            0 < length,
            index <= length - 1,
            length == value@.len(),
            forall|i: int|
                0 <= i < index ==> !((#[trigger] value@[i]) == '.' && value@[i + 1] == '.'),
        decreases length - index,
    {
        if value.get_char(index) == '.' && value.get_char(index + 1) == '.' {
            assert(value@[index as int] == '.');
            return true;
        }
        index += 1;
    }
    false
}

/// The value a run of decimal digits stands for.
pub open spec fn decimal_value(digits: Seq<char>) -> nat
    decreases digits.len(),
{
    if digits.len() == 0 {
        0
    } else {
        decimal_value(digits.drop_last()) * 10 + (digits.last() as nat - '0' as nat) as nat
    }
}

/// Whether a text is one or more ASCII decimal digits.
pub open spec fn is_decimal(digits: Seq<char>) -> bool {
    digits.len() > 0 && forall|i: int| 0 <= i < digits.len() ==> '0' <= #[trigger] digits[i] <= '9'
}

/// The digits of an unsigned decimal numeral, after an optional plus sign.
pub open spec fn unsigned_digits(value: Seq<char>) -> Seq<char> {
    if begins_with(value, '+') {
        value.skip(1)
    } else {
        value
    }
}

/// The unsigned 32-bit number a text spells: an optional plus sign and decimal
/// digits whose value fits.
pub open spec fn spec_parse_u32(value: Seq<char>) -> Option<u32> {
    let digits = unsigned_digits(value);
    if is_decimal(digits) && decimal_value(digits) <= u32::MAX {
        Some(decimal_value(digits) as u32)
    } else {
        None
    }
}

proof fn lemma_decimal_value_grows(digits: Seq<char>, at: int)
    requires
        0 <= at <= digits.len(),
        is_decimal(digits),
    ensures
        decimal_value(digits.take(at)) <= decimal_value(digits),
    decreases digits.len(),
{
    if at == digits.len() {
        assert(digits.take(at) =~= digits);
    } else if at == 0 {
        assert(digits.take(0).len() == 0);
    } else {
        assert(digits.drop_last().take(at) =~= digits.take(at));
        assert(is_decimal(digits.drop_last())) by {
            assert forall|i: int| 0 <= i < digits.drop_last().len() implies '0'
                <= #[trigger] digits.drop_last()[i] <= '9' by {
                assert(digits[i] == digits.drop_last()[i]);
            }
        }
        lemma_decimal_value_grows(digits.drop_last(), at);
    }
}

/// Reads an unsigned 32-bit number.
pub fn parse_u32(value: &str) -> (number: Option<u32>)
    ensures
        number == spec_parse_u32(value@),
{
    let length: usize = value.unicode_len();
    let start: usize = if begins_with_character(value, '+') {
        1
    } else {
        0
    };
    let ghost digits = unsigned_digits(value@);
    if length == start {
        return None;
    }
    let mut total: u32 = 0;
    let mut index: usize = start;
    assert(digits.take(0).len() == 0);
    while index < length
        invariant
            start <= index <= length,
            length == value@.len(),
            digits == value@.skip(start as int),
            digits == unsigned_digits(value@),
            total == decimal_value(digits.take(index - start)),
            forall|i: int| 0 <= i < index - start ==> '0' <= #[trigger] digits[i] <= '9',
        decreases length - index,
    {
        let character = value.get_char(index);
        let ghost at = index - start;
        assert(digits[at] == character);
        if character < '0' || character > '9' {
            assert(!is_decimal(digits));
            return None;
        }
        let digit: u32 = character as u32 - 48;
        proof {
            assert(digits.take(at + 1).drop_last() =~= digits.take(at));
            assert(digits.take(at + 1).last() == character);
        }
        if total > 429496729 || (total == 429496729 && digit > 5) {
            assert(decimal_value(digits.take(at + 1)) > u32::MAX);
            proof {
                if is_decimal(digits) {
                    lemma_decimal_value_grows(digits, at + 1);
                }
            }
            return None;
        }
        total = total * 10 + digit;
        index += 1;
    }
    assert(digits.take(index - start) =~= digits);
    Some(total)
}

/// A command component is one through one hundred and sixty bytes, each a
/// letter, a digit, a full stop, a colon, an underscore or a hyphen of ASCII;
/// bounded text is one through the maximum without a zero byte.
pub proof fn law_components_and_texts_are_bounded(value: Seq<char>, maximum: int)
    ensures
        is_command_component(value) <==> 1 <= encode_utf8(value).len() <= 160 && forall|i: int|
            0 <= i < encode_utf8(value).len() ==> ({
                let byte = #[trigger] encode_utf8(value)[i];
                48 <= byte <= 57 || 65 <= byte <= 90 || 97 <= byte <= 122 || byte == 46 || byte
                    == 58 || byte == 95 || byte == 45
            }),
        is_bounded_text(value, maximum) <==> 1 <= encode_utf8(value).len() <= maximum && forall|
            i: int,
        | 0 <= i < encode_utf8(value).len() ==> #[trigger] encode_utf8(value)[i] != 0,
{
    let bytes = encode_utf8(value);
    if bytes.contains(0u8) {
        let at = choose|at: int| 0 <= at < bytes.len() && bytes[at] == 0u8;
        assert(encode_utf8(value)[at] == 0);
    }
    if is_command_component(value) {
        assert forall|i: int| 0 <= i < bytes.len() implies ({
            let byte = #[trigger] bytes[i];
            48 <= byte <= 57 || 65 <= byte <= 90 || 97 <= byte <= 122 || byte == 46 || byte == 58
                || byte == 95 || byte == 45
        }) by {
            assert(is_command_byte(bytes[i]));
        }
    }
}

/// Which characters are control characters, and which are white space.
pub proof fn law_character_classes(character: char)
    ensures
        is_control(character) <==> character as int <= 31 || 127 <= character as int <= 159,
        is_white_space(character) <==> {
            let code = character as int;
            ||| 9 <= code <= 13 || code == 32
            ||| code == 133 || code == 160 || code == 5760
            ||| 8192 <= code <= 8202
            ||| code == 8232 || code == 8233 || code == 8239 || code == 8287 || code == 12288
        },
{
}

/// Text holds white space, or two full stops in a row, exactly when it is
/// something, that, and something.
pub proof fn law_text_holds_what_stands_in_it(
    before: Seq<char>,
    character: char,
    after: Seq<char>,
)
    ensures
        is_white_space(character) ==> has_white_space(before + seq![character] + after),
        has_white_space(before) ==> exists|i: int|
            0 <= i < before.len() && is_white_space(#[trigger] before[i]),
        has_double_stop(before + seq!['.', '.'] + after),
        has_double_stop(before) ==> exists|i: int|
            0 <= i < before.len() - 1 && #[trigger] before[i] == '.' && before[i + 1] == '.',
        begins_with(seq![character] + after, character),
        ends_with(before + seq![character], character),
        begins_with(before, character) ==> before.len() > 0 && before[0] == character,
        ends_with(before, character) ==> before.len() > 0 && before.last() == character,
{
    let spaced = before + seq![character] + after;
    assert(spaced[before.len() as int] == character);
    let stopped = before + seq!['.', '.'] + after;
    assert(stopped[before.len() as int] == '.');
    assert(stopped[before.len() as int + 1] == '.');
}

/// A number is read from its digits, with or without a plus sign: one more digit
/// makes ten times as much and the digit, what does not fit is refused, and so
/// is everything that is not digits.
pub proof fn law_numbers_are_read_digit_by_digit(text: Seq<char>, digit: char)
    ensures
        '0' <= digit <= '9' ==> spec_parse_u32(seq![digit]) == Some(
            (digit as int - '0' as int) as u32,
        ),
        '0' <= digit <= '9' && text.len() > 0 && '0' <= text[0] <= '9' ==> spec_parse_u32(
            text.push(digit),
        ) == (match spec_parse_u32(text) {
            Some(value) => if value * 10 + (digit as int - '0' as int) <= u32::MAX {
                Some((value * 10 + (digit as int - '0' as int)) as u32)
            } else {
                None
            },
            None => None,
        }),
        text.len() > 0 && '0' <= text[0] <= '9' ==> spec_parse_u32(seq!['+'] + text)
            == spec_parse_u32(text),
        spec_parse_u32(text) is Some ==> text.len() > 0 && text.last() != '+' && forall|i: int|
            1 <= i < text.len() ==> '0' <= #[trigger] text[i] <= '9',
        text.len() > 0 && !('0' <= text[0] <= '9') && text[0] != '+' ==> spec_parse_u32(text)
            is None,
        spec_parse_u32(Seq::empty()) is None,
{
    if '0' <= digit <= '9' {
        let one = seq![digit];
        assert(one.drop_last() =~= Seq::empty());
        assert(decimal_value(one.drop_last()) == 0);
        assert(decimal_value(one) == (digit as nat - '0' as nat) as nat);
        assert(is_decimal(one));
    }
    if '0' <= digit <= '9' && text.len() > 0 && '0' <= text[0] <= '9' {
        let longer = text.push(digit);
        assert(longer.drop_last() =~= text);
        assert(longer[0] == text[0]);
        assert(decimal_value(longer) == decimal_value(text) * 10 + (digit as nat
            - '0' as nat) as nat);
        if is_decimal(text) {
            assert(is_decimal(longer));
        } else {
            let at = choose|at: int| 0 <= at < text.len() && !('0' <= #[trigger] text[at] <= '9');
            assert(longer[at] == text[at]);
            assert(!is_decimal(longer));
        }
    }
    if text.len() > 0 && '0' <= text[0] <= '9' {
        let signed = seq!['+'] + text;
        assert(signed[0] == '+');
        assert(signed.skip(1) =~= text);
        assert(unsigned_digits(text) == text);
    }
    if spec_parse_u32(text) is Some {
        let digits = unsigned_digits(text);
        if begins_with(text, '+') {
            assert forall|i: int| 1 <= i < text.len() implies '0' <= #[trigger] text[i] <= '9' by {
                assert(digits[i - 1] == text[i]);
            }
            assert(digits.len() > 0);
            assert(text.last() == digits[digits.len() - 1]);
        } else {
            assert(digits == text);
            assert(text.last() == digits[digits.len() - 1]);
        }
    }
    if text.len() > 0 && !('0' <= text[0] <= '9') && text[0] != '+' {
        assert(unsigned_digits(text)[0] == text[0]);
    }
    assert(!is_decimal(Seq::<char>::empty()));
    assert(unsigned_digits(Seq::<char>::empty()) =~= Seq::<char>::empty());
}

/// A number is written in decimal: one digit as itself, a greater one as what it
/// holds of tens followed by the digit, a negative one behind a minus sign.
pub proof fn law_numbers_are_written_in_decimal(tens: nat, digit: nat)
    requires
        digit < 10,
    ensures
        decimal(digit as int).len() == 1,
        decimal(digit as int)[0] == "0123456789"@[digit as int],
        tens > 0 ==> decimal((tens * 10 + digit) as int) == decimal(tens as int).push(
            "0123456789"@[digit as int],
        ),
        tens > 0 ==> decimal(-tens) == seq!['-'] + decimal(tens as int),
{
    reveal_strlit("0123456789");
    assert("0123456789"@[digit as int] as nat == '0' as nat + digit);
    assert((('0' as nat) + digit) as char == "0123456789"@[digit as int]);
    let value = tens * 10 + digit;
    assert(value % 10 == digit && value / 10 == tens);
    assert(digit % 10 == digit);
}

} // verus!
