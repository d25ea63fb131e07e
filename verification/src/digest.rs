//! Content digests and the hash that produces them.

use vstd::prelude::*;

use crate::text::bytes_equal;

verus! {

/// The 32-byte BLAKE3 digest of `bytes`.
pub uninterp spec fn blake3_of(bytes: Seq<u8>) -> [u8; 32];

/// `blake3::hash` with its default 32-byte output. The digest depends on the
/// input bytes alone and is the value [`blake3_of`] names.
#[verifier::external_body]
fn blake3_hash(bytes: &[u8]) -> (digest: [u8; 32])
    ensures
        digest == blake3_of(bytes@),
{
    *blake3::hash(bytes).as_bytes()
}

/// A 32-byte content identity.
#[derive(Clone, Copy, Debug, PartialEq, Eq, Hash)]
pub struct ContentDigest {
    pub bytes: [u8; 32],
}

/// The lowercase hexadecimal digit of a four-bit value.
pub open spec fn hex_digit(value: int) -> char {
    if value < 10 {
        (('0' as int) + value) as char
    } else {
        (('a' as int) + value - 10) as char
    }
}

/// Lowercase hexadecimal rendering of a byte string.
pub open spec fn hex_of(bytes: Seq<u8>) -> Seq<char> {
    Seq::new(
        2 * bytes.len(),
        |i: int|
            if i % 2 == 0 {
                hex_digit(bytes[i / 2] as int / 16)
            } else {
                hex_digit(bytes[i / 2] as int % 16)
            },
    )
}

/// The value of a lowercase hexadecimal digit.
pub open spec fn hex_value(character: char) -> Option<u8> {
    if '0' <= character <= '9' {
        Some((character as int - '0' as int) as u8)
    } else if 'a' <= character <= 'f' {
        Some((character as int - 'a' as int + 10) as u8)
    } else {
        None
    }
}

/// Whether a text is 64 lowercase hexadecimal digits.
pub open spec fn is_digest_text(text: Seq<char>) -> bool {
    &&& text.len() == 64
    &&& forall|i: int| 0 <= i < 64 ==> hex_value(#[trigger] text[i]) is Some
}

/// The 32 bytes a digest text stands for.
pub open spec fn digest_bytes(text: Seq<char>) -> Seq<u8> {
    Seq::new(
        32,
        |i: int| (hex_value(text[2 * i])->0 * 16 + hex_value(text[2 * i + 1])->0) as u8,
    )
}

fn hex_byte_value(byte: u8) -> (value: Option<u8>)
    ensures
        value == hex_value(byte as char),
        value matches Some(v) ==> v < 16,
{
    if 0x30 <= byte && byte <= 0x39 {
        Some(byte - 0x30)
    } else if 0x61 <= byte && byte <= 0x66 {
        Some(byte - 0x61 + 10)
    } else {
        None
    }
}

fn hex_character(value: u8) -> (character: char)
    requires
        value < 16,
    ensures
        character == hex_digit(value as int),
{
    match value {
        0 => '0',
        1 => '1',
        2 => '2',
        3 => '3',
        4 => '4',
        5 => '5',
        6 => '6',
        7 => '7',
        8 => '8',
        9 => '9',
        10 => 'a',
        11 => 'b',
        12 => 'c',
        13 => 'd',
        14 => 'e',
        _ => 'f',
    }
}

impl ContentDigest {
    /// The digest of `bytes`.
    pub fn of_bytes(bytes: &[u8]) -> (digest: ContentDigest)
        ensures
            digest.bytes == blake3_of(bytes@),
    {
        ContentDigest { bytes: blake3_hash(bytes) }
    }

    /// A digest from its 32 raw bytes.
    pub fn from_bytes(bytes: [u8; 32]) -> (digest: ContentDigest)
        ensures
            digest.bytes == bytes,
    {
        ContentDigest { bytes }
    }

    /// The 32 raw bytes.
    pub fn as_bytes(&self) -> (bytes: [u8; 32])
        ensures
            bytes == self.bytes,
    {
        self.bytes
    }

    /// Whether two digests are the same 32 bytes.
    pub fn same(&self, other: &ContentDigest) -> (equal: bool)
        ensures
            equal == (*self == *other),
    {
        let equal = bytes_equal(self.bytes.as_slice(), other.bytes.as_slice());
        proof {
            if self.bytes@ == other.bytes@ {
                assert(self.bytes =~= other.bytes);
            }
        }
        equal
    }

    /// Reads the canonical rendering back: 64 lowercase hexadecimal digits.
    pub fn parse_hex(text: &str) -> (digest: Option<ContentDigest>)
        ensures
            match digest {
                Some(digest) => is_digest_text(text@) && digest.bytes@ == digest_bytes(text@),
                None => !is_digest_text(text@),
            },
    {
        if !text.is_ascii() {
            proof {
                if is_digest_text(text@) {
                    assert forall|i: int| 0 <= i < text@.len() implies '\0'
                        <= #[trigger] text@[i] <= '\u{7f}' by {
                        assert(hex_value(text@[i]) is Some);
                    }
                }
            }
            return None;
        }
        let bytes = text.as_bytes();
        proof {
            vstd::string::is_ascii_spec_bytes(text);
        }
        if bytes.len() != 64 {
            return None;
        }
        let mut array: [u8; 32] = [0u8; 32];
        let mut index: usize = 0;
        while index < 32
            invariant
                index <= 32,
                array@.len() == 32,
                bytes@.len() == 64,
                text@.len() == 64,
                text.is_ascii(),
                forall|i: int| 0 <= i < 64 ==> (#[trigger] bytes@[i]) as char == text@[i],
                forall|i: int| 0 <= i < 2 * index ==> hex_value(#[trigger] text@[i]) is Some,
                forall|i: int| 0 <= i < index ==> array@[i] == digest_bytes(text@)[i],
            decreases 32 - index,
        {
            let high = match hex_byte_value(bytes[2 * index]) {
                Some(value) => value,
                None => {
                    assert(hex_value(text@[2 * index as int]) is None);
                    return None;
                },
            };
            let low = match hex_byte_value(bytes[2 * index + 1]) {
                Some(value) => value,
                None => {
                    assert(hex_value(text@[2 * index as int + 1]) is None);
                    return None;
                },
            };
            array[index] = high * 16 + low;
            assert(array@[index as int] == digest_bytes(text@)[index as int]);
            index += 1;
        }
        assert(array@ =~= digest_bytes(text@));
        Some(ContentDigest { bytes: array })
    }

    /// Lowercase hexadecimal rendering, 64 characters.
    pub fn to_hex(&self) -> (text: String)
        ensures
            text@ == hex_of(self.bytes@),
    {
        let mut text = String::new();
        let mut index: usize = 0;
        while index < 32
            invariant
                index <= 32,
                text@ == hex_of(self.bytes@.take(index as int)),
            decreases 32 - index,
        {
            let byte: u8 = self.bytes[index];
            text.push(hex_character(byte / 16));
            text.push(hex_character(byte % 16));
            assert(text@ =~= hex_of(self.bytes@.take(index as int + 1)));
            index += 1;
        }
        assert(self.bytes@.take(32) =~= self.bytes@);
        text
    }
}

proof fn lemma_hex_digit_value(value: int)
    requires
        0 <= value < 16,
    ensures
        hex_value(hex_digit(value)) == Some(value as u8),
{
}

proof fn lemma_hex_value_digit(character: char)
    requires
        hex_value(character) is Some,
    ensures
        hex_value(character)->0 < 16,
        hex_digit(hex_value(character)->0 as int) == character,
{
}

/// Rendering a digest and reading the text back gives the same 32 bytes.
pub proof fn law_hex_round_trip(bytes: Seq<u8>)
    requires
        bytes.len() == 32,
    ensures
        is_digest_text(hex_of(bytes)),
        digest_bytes(hex_of(bytes)) == bytes,
{
    let text = hex_of(bytes);
    assert forall|i: int| 0 <= i < 64 implies hex_value(#[trigger] text[i]) is Some by {
        lemma_hex_digit_value(bytes[i / 2] as int / 16);
        lemma_hex_digit_value(bytes[i / 2] as int % 16);
    }
    assert forall|i: int| 0 <= i < 32 implies digest_bytes(text)[i] == bytes[i] by {
        lemma_hex_digit_value(bytes[i] as int / 16);
        lemma_hex_digit_value(bytes[i] as int % 16);
        assert(text[2 * i] == hex_digit(bytes[i] as int / 16));
        assert(text[2 * i + 1] == hex_digit(bytes[i] as int % 16));
    }
    assert(digest_bytes(text) =~= bytes);
}

/// The two digits of one byte of a digest text.
#[verifier::spinoff_prover]
proof fn lemma_canonical_pair(text: Seq<char>, at: int)
    requires
        is_digest_text(text),
        0 <= at < 32,
    ensures
        hex_digit(digest_bytes(text)[at] as int / 16) == text[2 * at],
        hex_digit(digest_bytes(text)[at] as int % 16) == text[2 * at + 1],
{
    assert(hex_value(text[2 * at]) is Some);
    assert(hex_value(text[2 * at + 1]) is Some);
    lemma_hex_value_digit(text[2 * at]);
    lemma_hex_value_digit(text[2 * at + 1]);
    let high = hex_value(text[2 * at])->0 as int;
    let low = hex_value(text[2 * at + 1])->0 as int;
    let byte = digest_bytes(text)[at] as int;
    assert(byte == high * 16 + low);
    assert(byte / 16 == high && byte % 16 == low);
}

/// A text that reads as a digest is that digest's rendering.
#[verifier::spinoff_prover]
pub proof fn law_digest_text_is_canonical(text: Seq<char>)
    requires
        is_digest_text(text),
    ensures
        hex_of(digest_bytes(text)) == text,
{
    let bytes = digest_bytes(text);
    assert forall|i: int| 0 <= i < 64 implies hex_of(bytes)[i] == text[i] by {
        let at = i / 2;
        lemma_canonical_pair(text, at);
        if i % 2 == 0 {
            assert(i == 2 * at);
        } else {
            assert(i == 2 * at + 1);
        }
    }
    assert(hex_of(bytes) =~= text);
}

/// A byte is written as two lower-case hexadecimal digits, the greater first,
/// and bytes one after another.
pub proof fn law_hex_is_written_byte_by_byte(left: Seq<u8>, byte: u8, right: Seq<u8>)
    ensures
        hex_of(seq![byte]).len() == 2,
        hex_of(seq![byte])[0] == "0123456789abcdef"@[byte as int / 16],
        hex_of(seq![byte])[1] == "0123456789abcdef"@[byte as int % 16],
        hex_of(left + right) == hex_of(left) + hex_of(right),
{
    reveal_strlit("0123456789abcdef");
    assert forall|value: int| 0 <= value < 16 implies #[trigger] hex_digit(value)
        == "0123456789abcdef"@[value] by {}
    assert(hex_of(left + right) =~= hex_of(left) + hex_of(right));
}

/// A digest is written in full exactly as sixty-four digits or lower-case
/// letters from a to f.
pub proof fn law_digest_text_is_sixty_four_digits(text: Seq<char>)
    ensures
        is_digest_text(text) <==> text.len() == 64 && forall|i: int|
            0 <= i < 64 ==> ('0' <= #[trigger] text[i] <= '9' || 'a' <= text[i] <= 'f'),
{
}

} // verus!
