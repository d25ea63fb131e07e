//! Standard-alphabet base64: an encoder, and a decoder that accepts exactly
//! what the encoder produces.

use vstd::prelude::*;
use vstd::utf8::encode_utf8;

verus! {

pub const EMPTY_OR_LENGTH: &'static str = "base64 value is empty or has invalid length";

pub const INVALID_PADDING: &'static str = "base64 padding is invalid";

pub const INVALID_ALPHABET: &'static str = "base64 alphabet is invalid";

pub const TRAILING_BITS: &'static str = "base64 has non-canonical trailing bits";

/// The padding byte, `=`.
pub const PAD: u8 = 0x3d;

/// The six-bit value of an alphabet byte.
pub open spec fn sextet(byte: u8) -> Option<u8> {
    if 0x41 <= byte <= 0x5a {
        Some((byte - 0x41) as u8)
    } else if 0x61 <= byte <= 0x7a {
        Some((byte - 0x61 + 26) as u8)
    } else if 0x30 <= byte <= 0x39 {
        Some((byte - 0x30 + 52) as u8)
    } else if byte == 0x2b {
        Some(62)
    } else if byte == 0x2f {
        Some(63)
    } else {
        None
    }
}

/// The alphabet byte of a six-bit value.
pub open spec fn alphabet(value: int) -> u8 {
    if value < 26 {
        (0x41 + value) as u8
    } else if value < 52 {
        (0x61 + value - 26) as u8
    } else if value < 62 {
        (0x30 + value - 52) as u8
    } else if value == 62 {
        0x2b
    } else {
        0x2f
    }
}

/// The four bytes that encode one through three bytes.
pub open spec fn encoded_group(group: Seq<u8>) -> Seq<u8> {
    let first = group[0] as int;
    let second = if group.len() > 1 { group[1] as int } else { 0 };
    let third = if group.len() > 2 { group[2] as int } else { 0 };
    seq![
        alphabet(first / 4),
        alphabet((first % 4) * 16 + second / 16),
        if group.len() > 1 { alphabet((second % 16) * 4 + third / 64) } else { PAD },
        if group.len() > 2 { alphabet(third % 64) } else { PAD },
    ]
}

/// The base64 encoding of a byte string, as ASCII bytes.
pub open spec fn base64_of(bytes: Seq<u8>) -> Seq<u8>
    decreases bytes.len(),
{
    if bytes.len() == 0 {
        Seq::empty()
    } else if bytes.len() <= 3 {
        encoded_group(bytes)
    } else {
        encoded_group(bytes.take(3)) + base64_of(bytes.skip(3))
    }
}

/// The characters of an ASCII byte string.
pub open spec fn ascii_text(bytes: Seq<u8>) -> Seq<char> {
    Seq::new(bytes.len(), |i: int| bytes[i] as char)
}

/// How many padding bytes end a four-byte group.
pub open spec fn padding_of(group: Seq<u8>) -> int {
    if group[3] != PAD {
        0
    } else if group[2] != PAD {
        1
    } else if group[1] != PAD {
        2
    } else if group[0] != PAD {
        3
    } else {
        4
    }
}

/// Six-bit value of a byte, zero for padding.
pub open spec fn padded_sextet(byte: u8) -> Option<u8> {
    if byte == PAD {
        Some(0)
    } else {
        sextet(byte)
    }
}

/// Why a four-byte group is refused, if it is.
pub open spec fn group_fault(group: Seq<u8>, is_last: bool) -> Option<&'static str> {
    let padding = padding_of(group);
    if padding > 2 || (!is_last && padding != 0) || group.take(4 - padding).contains(PAD) {
        Some(INVALID_PADDING)
    } else if sextet(group[0]) is None || sextet(group[1]) is None || padded_sextet(
        group[2],
    ) is None || padded_sextet(group[3]) is None {
        Some(INVALID_ALPHABET)
    } else if (padding == 2 && sextet(group[1])->0 % 16 != 0) || (padding == 1 && padded_sextet(
        group[2],
    )->0 % 4 != 0) {
        Some(TRAILING_BITS)
    } else {
        None
    }
}

/// The bytes of a four-byte group.
pub open spec fn group_bytes(group: Seq<u8>) -> Seq<u8> {
    let a = sextet(group[0])->0 as int;
    let b = sextet(group[1])->0 as int;
    let c = padded_sextet(group[2])->0 as int;
    let d = padded_sextet(group[3])->0 as int;
    let whole = seq![(a * 4 + b / 16) as u8, ((b % 16) * 16 + c / 4) as u8, ((c % 4) * 64 + d) as u8];
    whole.take(3 - padding_of(group))
}

/// Decoding of the remaining whole groups of a value.
pub open spec fn decoded_groups(text: Seq<u8>) -> Result<Seq<u8>, &'static str>
    decreases text.len(),
{
    if text.len() < 4 {
        Ok(Seq::empty())
    } else {
        match group_fault(text.take(4), text.len() == 4) {
            Some(fault) => Err(fault),
            None => match decoded_groups(text.skip(4)) {
                Ok(rest) => Ok(group_bytes(text.take(4)) + rest),
                Err(fault) => Err(fault),
            },
        }
    }
}

/// Decoding of a whole value: the bytes, or the first fault met.
pub open spec fn decoded(text: Seq<u8>) -> Result<Seq<u8>, &'static str> {
    if text.len() == 0 || text.len() % 4 != 0 {
        Err(EMPTY_OR_LENGTH)
    } else {
        decoded_groups(text)
    }
}

/// The six-bit value of an alphabet byte.
pub fn base64_value(value: u8) -> (sextet_value: Option<u8>)
    ensures
        sextet_value == sextet(value),
        sextet_value matches Some(v) ==> v < 64,
{
    if 0x41 <= value && value <= 0x5a {
        Some(value - 0x41)
    } else if 0x61 <= value && value <= 0x7a {
        Some(value - 0x61 + 26)
    } else if 0x30 <= value && value <= 0x39 {
        Some(value - 0x30 + 52)
    } else if value == 0x2b {
        Some(62)
    } else if value == 0x2f {
        Some(63)
    } else {
        None
    }
}

fn alphabet_byte(value: u8) -> (byte: u8)
    requires
        value < 64,
    ensures
        byte == alphabet(value as int),
        byte < 0x80,
{
    if value < 26 {
        0x41 + value
    } else if value < 52 {
        0x61 + (value - 26)
    } else if value < 62 {
        0x30 + (value - 52)
    } else if value == 62 {
        0x2b
    } else {
        0x2f
    }
}

proof fn lemma_base64_of_step(bytes: Seq<u8>, at: int)
    requires
        0 <= at < bytes.len(),
        at % 3 == 0,
    ensures
        ({
            let end = if bytes.len() - at < 3 { bytes.len() as int } else { at + 3 };
            base64_of(bytes.take(end)) == base64_of(bytes.take(at)) + encoded_group(
                bytes.subrange(at, end),
            )
        }),
    decreases at,
{
    let end = if bytes.len() - at < 3 { bytes.len() as int } else { at + 3 };
    if at == 0 {
        assert(bytes.take(0) =~= Seq::empty());
        assert(bytes.subrange(0, end) =~= bytes.take(end));
        assert(base64_of(bytes.take(0)) =~= Seq::empty());
        assert(base64_of(bytes.take(end)) =~= Seq::empty() + encoded_group(bytes.take(end)));
    } else {
        let tail = bytes.skip(3);
        lemma_base64_of_step(tail, at - 3);
        assert(bytes.take(end).skip(3) =~= tail.take(end - 3));
        assert(bytes.take(at).skip(3) =~= tail.take(at - 3));
        assert(tail.subrange(at - 3, end - 3) =~= bytes.subrange(at, end));
        assert(bytes.take(end).take(3) =~= bytes.take(3));
        assert(bytes.take(at).take(3) =~= bytes.take(3));
        if at == 3 {
            assert(bytes.take(at).skip(3) =~= Seq::empty());
            assert(base64_of(tail.take(at - 3)) =~= Seq::empty());
            assert(bytes.take(at) =~= bytes.take(3));
        }
        assert(base64_of(bytes.take(end)) =~= base64_of(bytes.take(at)) + encoded_group(
            bytes.subrange(at, end),
        ));
    }
}

/// Base64 text of `bytes`, padded, in the standard alphabet.
pub fn base64_encode(bytes: &[u8]) -> (text: String)
    ensures
        text@ == ascii_text(base64_of(bytes@)),
        encode_utf8(text@) == base64_of(bytes@),
{
    let mut text = String::new();
    let mut at: usize = 0;
    proof {
        assert(bytes@.take(0) =~= Seq::empty());
        assert(text@ =~= ascii_text(base64_of(bytes@.take(0))));
    }
    while at < bytes.len()
        invariant
            at <= bytes.len(),
            at % 3 == 0 || at == bytes.len(),
            text@ == ascii_text(base64_of(bytes@.take(at as int))),
            forall|i: int| 0 <= i < text@.len() ==> (#[trigger] text@[i] as u32) < 0x80,
        decreases bytes.len() - at,
    {
        let left: usize = bytes.len() - at;
        let end: usize = if left < 3 { bytes.len() } else { at + 3 };
        let first: u8 = bytes[at];
        let second: u8 = if left > 1 { bytes[at + 1] } else { 0 };
        let third: u8 = if left > 2 { bytes[at + 2] } else { 0 };
        let ghost group = bytes@.subrange(at as int, end as int);
        let one: u8 = alphabet_byte(first / 4);
        let two: u8 = alphabet_byte((first % 4) * 16 + second / 16);
        let three: u8 = if left > 1 { alphabet_byte((second % 16) * 4 + third / 64) } else { PAD };
        let four: u8 = if left > 2 { alphabet_byte(third % 64) } else { PAD };
        assert(encoded_group(group) =~= seq![one, two, three, four]);
        text.push(one as char);
        text.push(two as char);
        text.push(three as char);
        text.push(four as char);
        proof {
            lemma_base64_of_step(bytes@, at as int);
            assert(text@ =~= ascii_text(base64_of(bytes@.take(end as int))));
        }
        at = end;
    }
    proof {
        assert(bytes@.take(at as int) =~= bytes@);
        vstd::utf8::is_ascii_chars_encode_utf8(text@);
        assert(encode_utf8(text@) =~= base64_of(bytes@));
    }
    text
}

proof fn lemma_decoded_groups_step(text: Seq<u8>, at: int)
    requires
        0 <= at < text.len(),
        at % 4 == 0,
        text.len() % 4 == 0,
    ensures
        decoded_groups(text.skip(at)) == (match group_fault(
            text.subrange(at, at + 4),
            at + 4 == text.len(),
        ) {
            Some(fault) => Err::<Seq<u8>, &'static str>(fault),
            None => match decoded_groups(text.skip(at + 4)) {
                Ok(rest) => Ok(group_bytes(text.subrange(at, at + 4)) + rest),
                Err(fault) => Err(fault),
            },
        }),
{
    assert(text.skip(at).take(4) =~= text.subrange(at, at + 4));
    assert(text.skip(at).skip(4) =~= text.skip(at + 4));
}

/// Decodes canonical base64. Refuses an empty value, a length that is not a
/// multiple of four, misplaced padding, bytes outside the alphabet, and
/// nonzero bits behind the last byte; the first fault met is reported.
pub fn decode_base64(value: &str) -> (result: Result<Vec<u8>, &'static str>)
    ensures
        match (result, decoded(encode_utf8(value@))) {
            (Ok(bytes), Ok(expected)) => bytes@ == expected,
            (Err(fault), Err(expected)) => fault == expected,
            _ => false,
        },
{
    let text = value.as_bytes();
    if text.len() == 0 || text.len() % 4 != 0 {
        return Err(EMPTY_OR_LENGTH);
    }
    let mut output: Vec<u8> = Vec::new();
    let mut at: usize = 0;
    assert(text@.skip(0) =~= text@);
    while at < text.len()
        invariant
            at <= text.len(),
            at % 4 == 0,
            text.len() % 4 == 0,
            text.len() > 0,
            text@ == encode_utf8(value@),
            decoded(text@) == (match decoded_groups(text@.skip(at as int)) {
                Ok(rest) => Ok::<Seq<u8>, &'static str>(output@ + rest),
                Err(fault) => Err(fault),
            }),
        decreases text.len() - at,
    {
        let ghost group = text@.subrange(at as int, at as int + 4);
        proof {
            lemma_decoded_groups_step(text@, at as int);
        }
        let g0: u8 = text[at];
        let g1: u8 = text[at + 1];
        let g2: u8 = text[at + 2];
        let g3: u8 = text[at + 3];
        let is_last = at + 4 == text.len();
        let padding: usize = if g3 != PAD {
            0
        } else if g2 != PAD {
            1
        } else if g1 != PAD {
            2
        } else if g0 != PAD {
            3
        } else {
            4
        };
        assert(padding == padding_of(group));
        let inner_pad = (padding < 4 && g0 == PAD) || (padding < 3 && g1 == PAD) || (padding < 2
            && g2 == PAD);
        proof {
            let head = group.take(4 - padding);
            if inner_pad {
                if padding < 4 && g0 == PAD {
                    assert(head[0] == PAD);
                } else if padding < 3 && g1 == PAD {
                    assert(head[1] == PAD);
                } else {
                    assert(head[2] == PAD);
                }
            }
            assert(head.contains(PAD) == inner_pad);
        }
        if padding > 2 || (!is_last && padding != 0) || inner_pad {
            return Err(INVALID_PADDING);
        }
        let a: u8 = match base64_value(g0) {
            Some(v) => v,
            None => return Err(INVALID_ALPHABET),
        };
        let b: u8 = match base64_value(g1) {
            Some(v) => v,
            None => return Err(INVALID_ALPHABET),
        };
        let c: u8 = if g2 == PAD {
            0
        } else {
            match base64_value(g2) {
                Some(v) => v,
                None => return Err(INVALID_ALPHABET),
            }
        };
        let d: u8 = if g3 == PAD {
            0
        } else {
            match base64_value(g3) {
                Some(v) => v,
                None => return Err(INVALID_ALPHABET),
            }
        };
        if (padding == 2 && b % 16 != 0) || (padding == 1 && c % 4 != 0) {
            return Err(TRAILING_BITS);
        }
        let ghost before = output@;
        output.push(a * 4 + b / 16);
        if padding < 2 {
            output.push((b % 16) * 16 + c / 4);
        }
        if padding == 0 {
            output.push((c % 4) * 64 + d);
        }
        assert(output@ =~= before + group_bytes(group));
        proof {
            match decoded_groups(text@.skip(at as int + 4)) {
                Ok(rest) => {
                    assert((before + group_bytes(group)) + rest =~= before + (group_bytes(group)
                        + rest));
                },
                Err(_) => {},
            }
        }
        at += 4;
    }
    assert(text@.skip(at as int) =~= Seq::empty());
    assert(output@ + Seq::<u8>::empty() =~= output@);
    Ok(output)
}

proof fn lemma_alphabet_sextet(value: int)
    requires
        0 <= value < 64,
    ensures
        sextet(alphabet(value)) == Some(value as u8),
        alphabet(value) != PAD,
{
}

proof fn lemma_sextet_alphabet(byte: u8)
    requires
        sextet(byte) is Some,
    ensures
        alphabet(sextet(byte)->0 as int) == byte,
        sextet(byte)->0 < 64,
        byte != PAD,
{
}

#[verifier::spinoff_prover]
proof fn lemma_group_round_trip(group: Seq<u8>, is_last: bool)
    requires
        1 <= group.len() <= 3,
        group.len() < 3 ==> is_last,
    ensures
        encoded_group(group).len() == 4,
        group_fault(encoded_group(group), is_last) is None,
        group_bytes(encoded_group(group)) == group,
{
    let first = group[0] as int;
    let second = if group.len() > 1 { group[1] as int } else { 0 };
    let third = if group.len() > 2 { group[2] as int } else { 0 };
    lemma_alphabet_sextet(first / 4);
    lemma_alphabet_sextet((first % 4) * 16 + second / 16);
    lemma_alphabet_sextet((second % 16) * 4 + third / 64);
    lemma_alphabet_sextet(third % 64);
    let text = encoded_group(group);
    assert(padding_of(text) == 3 - group.len());
    assert(group_bytes(text) =~= group);
}

proof fn lemma_decoded_groups_head(text: Seq<u8>, rest: Seq<u8>, group: Seq<u8>)
    requires
        group.len() == 4,
        text == group + rest,
        group_fault(group, rest.len() == 0) is None,
        decoded_groups(rest) is Ok,
    ensures
        decoded_groups(text) == Ok::<Seq<u8>, &'static str>(
            group_bytes(group) + decoded_groups(rest)->Ok_0,
        ),
{
    assert(text.take(4) =~= group);
    assert(text.skip(4) =~= rest);
}

#[verifier::spinoff_prover]
#[verifier::rlimit(40)]
proof fn lemma_decoded_groups_of_encoding(bytes: Seq<u8>)
    ensures
        base64_of(bytes).len() % 4 == 0,
        bytes.len() > 0 ==> base64_of(bytes).len() > 0,
        decoded_groups(base64_of(bytes)) == Ok::<Seq<u8>, &'static str>(bytes),
    decreases bytes.len(),
{
    if bytes.len() == 0 {
        assert(bytes =~= Seq::empty());
    } else {
        let head = if bytes.len() <= 3 { bytes } else { bytes.take(3) };
        let tail = if bytes.len() <= 3 { Seq::empty() } else { bytes.skip(3) };
        lemma_group_round_trip(head, bytes.len() <= 3);
        lemma_decoded_groups_of_encoding(tail);
        assert(base64_of(bytes) =~= encoded_group(head) + base64_of(tail));
        lemma_decoded_groups_head(base64_of(bytes), base64_of(tail), encoded_group(head));
        assert(head + tail =~= bytes);
    }
}

/// Encoding and then decoding gives back every nonempty byte string.
pub proof fn law_decode_undoes_encode(bytes: Seq<u8>)
    requires
        bytes.len() > 0,
    ensures
        decoded(base64_of(bytes)) == Ok::<Seq<u8>, &'static str>(bytes),
{
    lemma_decoded_groups_of_encoding(bytes);
}

proof fn lemma_sextets_to_bytes(a: int, b: int, c: int, d: int)
    requires
        0 <= a < 64,
        0 <= b < 64,
        0 <= c < 64,
        0 <= d < 64,
    ensures
        0 <= a * 4 + b / 16 < 256,
        0 <= (b % 16) * 16 + c / 4 < 256,
        0 <= (c % 4) * 64 + d < 256,
        (a * 4 + b / 16) / 4 == a,
        ((a * 4 + b / 16) % 4) * 16 + ((b % 16) * 16 + c / 4) / 16 == b,
        (((b % 16) * 16 + c / 4) % 16) * 4 + ((c % 4) * 64 + d) / 64 == c,
        ((c % 4) * 64 + d) % 64 == d,
{
}

#[verifier::spinoff_prover]
#[verifier::rlimit(40)]
proof fn lemma_group_canonical(text: Seq<u8>, is_last: bool)
    requires
        text.len() == 4,
        group_fault(text, is_last) is None,
    ensures
        1 <= group_bytes(text).len() <= 3,
        !is_last ==> group_bytes(text).len() == 3,
        encoded_group(group_bytes(text)) == text,
{
    lemma_sextet_alphabet(text[0]);
    lemma_sextet_alphabet(text[1]);
    let padding = padding_of(text);
    let head = text.take(4 - padding);
    let a = sextet(text[0])->0 as int;
    let b = sextet(text[1])->0 as int;
    let c = padded_sextet(text[2])->0 as int;
    let d = padded_sextet(text[3])->0 as int;
    if padding < 2 {
        assert(text[2] != PAD) by {
            assert(head[2] == text[2]);
        }
        lemma_sextet_alphabet(text[2]);
    }
    if padding == 0 {
        lemma_sextet_alphabet(text[3]);
    }
    lemma_sextets_to_bytes(a, b, c, d);
    let bytes = group_bytes(text);
    assert(bytes.len() == 3 - padding);
    assert(bytes[0] as int == a * 4 + b / 16);
    if padding == 0 {
        assert(bytes[1] as int == (b % 16) * 16 + c / 4);
        assert(bytes[2] as int == (c % 4) * 64 + d);
    } else if padding == 1 {
        assert(bytes[1] as int == (b % 16) * 16 + c / 4);
        assert(c % 4 == 0);
    } else {
        assert(b % 16 == 0);
    }
    let again = encoded_group(bytes);
    assert(again[0] == text[0]);
    assert(again[1] == text[1]);
    assert(again[2] == text[2]);
    assert(again[3] == text[3]);
    assert(again =~= text);
}

proof fn lemma_groups_canonical(text: Seq<u8>)
    requires
        text.len() % 4 == 0,
        decoded_groups(text) is Ok,
    ensures
        base64_of(decoded_groups(text)->Ok_0) == text,
    decreases text.len(),
{
    if text.len() == 0 {
        assert(base64_of(decoded_groups(text)->Ok_0) =~= text);
    } else {
        let group = text.take(4);
        let rest = text.skip(4);
        lemma_group_canonical(group, text.len() == 4);
        lemma_groups_canonical(rest);
        let bytes = decoded_groups(text)->Ok_0;
        let tail = decoded_groups(rest)->Ok_0;
        if text.len() == 4 {
            assert(rest =~= Seq::empty());
            assert(bytes =~= group_bytes(group));
            assert(text =~= group);
        } else {
            assert(bytes.take(3) =~= group_bytes(group));
            assert(bytes.skip(3) =~= tail);
            assert(rest.len() > 0);
            assert(tail.len() > 0) by {
                if tail.len() == 0 {
                    assert(base64_of(tail) =~= Seq::empty());
                }
            }
            assert(base64_of(bytes) =~= text);
        }
    }
}

/// Only canonical text decodes: whatever the decoder accepts is the encoding
/// of the bytes it gives.
pub proof fn law_encode_undoes_decode(text: Seq<u8>)
    requires
        decoded(text) is Ok,
    ensures
        base64_of(decoded(text)->Ok_0) == text,
{
    lemma_groups_canonical(text);
}

/// The bytes of a group whose padding is not held to its place: each padding
/// byte leaves out its own output byte.
pub open spec fn lenient_group(group: Seq<u8>) -> Option<Seq<u8>> {
    match (
        sextet(group[0]),
        sextet(group[1]),
        padded_sextet(group[2]),
        padded_sextet(group[3]),
    ) {
        (Some(a), Some(b), Some(c), Some(d)) => {
            let first = seq![(a * 4 + b / 16) as u8];
            let second = if group[2] != PAD {
                seq![((b % 16) * 16 + c / 4) as u8]
            } else {
                Seq::empty()
            };
            let third = if group[3] != PAD {
                seq![((c % 4) * 64 + d) as u8]
            } else {
                Seq::empty()
            };
            Some(first + second + third)
        },
        _ => None,
    }
}

/// Decoding of the remaining whole groups without canonicity checks.
pub open spec fn lenient_groups(text: Seq<u8>) -> Option<Seq<u8>>
    decreases text.len(),
{
    if text.len() < 4 {
        Some(Seq::empty())
    } else {
        match (lenient_group(text.take(4)), lenient_groups(text.skip(4))) {
            (Some(head), Some(rest)) => Some(head + rest),
            _ => None,
        }
    }
}

/// Decoding of a whole value without canonicity checks.
pub open spec fn decoded_leniently(text: Seq<u8>) -> Option<Seq<u8>> {
    if text.len() % 4 != 0 {
        None
    } else {
        lenient_groups(text)
    }
}

proof fn lemma_lenient_groups_step(text: Seq<u8>, at: int)
    requires
        0 <= at < text.len(),
        at % 4 == 0,
        text.len() % 4 == 0,
    ensures
        lenient_groups(text.skip(at)) == (match (
            lenient_group(text.subrange(at, at + 4)),
            lenient_groups(text.skip(at + 4)),
        ) {
            (Some(head), Some(rest)) => Some(head + rest),
            _ => None,
        }),
{
    assert(text.skip(at).take(4) =~= text.subrange(at, at + 4));
    assert(text.skip(at).skip(4) =~= text.skip(at + 4));
}

/// Decodes base64 whose length is a multiple of four and whose bytes are of
/// the alphabet or padding; padding is not held to the end.
pub fn decode_base64_lenient(value: &str) -> (result: Option<Vec<u8>>)
    ensures
        match (result, decoded_leniently(encode_utf8(value@))) {
            (Some(bytes), Some(expected)) => bytes@ == expected,
            (None, None) => true,
            _ => false,
        },
{
    let text = value.as_bytes();
    if text.len() % 4 != 0 {
        return None;
    }
    let mut output: Vec<u8> = Vec::new();
    let mut at: usize = 0;
    assert(text@.skip(0) =~= text@);
    while at < text.len()
        invariant
            at <= text.len(),
            at % 4 == 0,
            text.len() % 4 == 0,
            text@ == encode_utf8(value@),
            decoded_leniently(text@) == (match lenient_groups(text@.skip(at as int)) {
                Some(rest) => Some(output@ + rest),
                None => None,
            }),
        decreases text.len() - at,
    {
        let ghost group = text@.subrange(at as int, at as int + 4);
        proof {
            lemma_lenient_groups_step(text@, at as int);
        }
        let g0: u8 = text[at];
        let g1: u8 = text[at + 1];
        let g2: u8 = text[at + 2];
        let g3: u8 = text[at + 3];
        let a: u8 = match base64_value(g0) {
            Some(v) => v,
            None => return None,
        };
        let b: u8 = match base64_value(g1) {
            Some(v) => v,
            None => return None,
        };
        let c: u8 = if g2 == PAD {
            0
        } else {
            match base64_value(g2) {
                Some(v) => v,
                None => return None,
            }
        };
        let d: u8 = if g3 == PAD {
            0
        } else {
            match base64_value(g3) {
                Some(v) => v,
                None => return None,
            }
        };
        let ghost before = output@;
        output.push(a * 4 + b / 16);
        if g2 != PAD {
            output.push((b % 16) * 16 + c / 4);
        }
        if g3 != PAD {
            output.push((c % 4) * 64 + d);
        }
        let ghost head = lenient_group(group)->0;
        assert(output@ =~= before + head);
        proof {
            match lenient_groups(text@.skip(at as int + 4)) {
                Some(rest) => {
                    assert((before + head) + rest =~= before + (head + rest));
                },
                None => {},
            }
        }
        at += 4;
    }
    assert(text@.skip(at as int) =~= Seq::empty());
    assert(output@ + Seq::<u8>::empty() =~= output@);
    Some(output)
}

#[verifier::spinoff_prover]
proof fn lemma_lenient_group_agrees(group: Seq<u8>, is_last: bool)
    requires
        group.len() == 4,
        group_fault(group, is_last) is None,
    ensures
        lenient_group(group) == Some(group_bytes(group)),
{
    let padding = padding_of(group);
    let head = group.take(4 - padding);
    if padding < 2 {
        assert(head[2] == group[2]);
    }
    assert(lenient_group(group)->0 =~= group_bytes(group));
}

proof fn lemma_lenient_groups_agree(text: Seq<u8>)
    requires
        decoded_groups(text) is Ok,
    ensures
        lenient_groups(text) == Some(decoded_groups(text)->Ok_0),
    decreases text.len(),
{
    if text.len() >= 4 {
        lemma_lenient_group_agrees(text.take(4), text.len() == 4);
        lemma_lenient_groups_agree(text.skip(4));
    }
}

/// Where the canonical decoder succeeds, the lenient one gives the same bytes.
pub proof fn law_lenient_decoder_extends_canonical(text: Seq<u8>)
    requires
        decoded(text) is Ok,
    ensures
        decoded_leniently(text) == Some(decoded(text)->Ok_0),
{
    lemma_lenient_groups_agree(text);
}

/// The alphabet is the capital letters, the small letters, the digits, a plus
/// sign and a slash, in this order, and a byte is read by its place in it.
pub proof fn law_alphabet_is_in_order(value: int, byte: u8)
    requires
        0 <= value < 64,
    ensures
        alphabet(value) as char
            == "ABCDEFGHIJKLMNOPQRSTUVWXYZabcdefghijklmnopqrstuvwxyz0123456789+/"@[value],
        sextet(alphabet(value)) == Some(value as u8),
        sextet(byte) matches Some(place) ==> place < 64 && alphabet(place as int) == byte,
{
    reveal_strlit("ABCDEFGHIJKLMNOPQRSTUVWXYZabcdefghijklmnopqrstuvwxyz0123456789+/");
    lemma_alphabet_sextet(value);
    if sextet(byte) is Some {
        lemma_sextet_alphabet(byte);
    }
}

/// Three bytes are written as the four places that hold the same twenty-four
/// bits; two and one as the places that hold theirs followed by zero bits, and
/// padded to four; longer bytes three by three.
pub proof fn law_groups_hold_the_same_bits(first: u8, second: u8, third: u8, rest: Seq<u8>)
    ensures
        ({
            let group = base64_of(seq![first, second, third]);
            &&& group.len() == 4
            &&& first * 65_536 + second * 256 + third == place(group[0]) * 262_144 + place(group[1])
                * 4_096 + place(group[2]) * 64 + place(group[3])
        }),
        ({
            let group = base64_of(seq![first, second]);
            &&& group.len() == 4
            &&& first * 65_536 + second * 256 == place(group[0]) * 262_144 + place(group[1]) * 4_096
                + place(group[2]) * 64
            &&& group[3] == 61
        }),
        ({
            let group = base64_of(seq![first]);
            &&& group.len() == 4
            &&& first * 65_536 == place(group[0]) * 262_144 + place(group[1]) * 4_096
            &&& group[2] == 61 && group[3] == 61
        }),
        base64_of(Seq::empty()).len() == 0,
        base64_of(seq![first, second, third] + rest) == base64_of(seq![first, second, third])
            + base64_of(rest),
{
    lemma_places_are_read();
    let a = first as int;
    let b = second as int;
    let c = third as int;
    assert(0 <= (a % 4) * 16 + b / 16 < 64);
    assert(0 <= (b % 16) * 4 + c / 64 < 64);
    let whole = seq![first, second, third] + rest;
    if rest.len() == 0 {
        assert(whole =~= seq![first, second, third]);
        assert(base64_of(whole) =~= base64_of(seq![first, second, third]) + base64_of(rest));
    } else {
        assert(whole.take(3) =~= seq![first, second, third]);
        assert(whole.skip(3) =~= rest);
    }
}

/// The place of a byte in the alphabet.
pub open spec fn place(byte: u8) -> int {
    sextet(byte)->0 as int
}

proof fn lemma_places_are_read()
    ensures
        forall|value: int| 0 <= value < 64 ==> place(#[trigger] alphabet(value)) == value,
{
    assert forall|value: int| 0 <= value < 64 implies place(#[trigger] alphabet(value))
        == value by {
        lemma_alphabet_sextet(value);
    }
}

/// Why a text cannot be decoded: its length, a group that is padded where it may
/// not be, a byte outside the alphabet, or bits behind the last byte. The length
/// is named exactly when it is no positive multiple of four; of a single group
/// the first of the other causes is named.
pub proof fn law_refused_text_has_its_cause(text: Seq<u8>)
    ensures
        text.len() == 0 || text.len() % 4 != 0 ==> decoded(text) == Err::<Seq<u8>, &'static str>(
            EMPTY_OR_LENGTH,
        ),
        text.len() == 4 ==> ({
            let padded = if text[3] != 61 {
                0int
            } else if text[2] != 61 {
                1
            } else {
                2
            };
            let misplaced = text[0] == 61 || text[1] == 61 || (text[2] == 61 && text[3] != 61);
            let foreign = sextet(text[0]) is None || sextet(text[1]) is None || (text[2] != 61
                && sextet(text[2]) is None) || (text[3] != 61 && sextet(text[3]) is None);
            let trailing = (padded == 2 && place(text[1]) % 16 != 0) || (padded == 1 && place(
                text[2],
            ) % 4 != 0);
            &&& misplaced ==> decoded(text) == Err::<Seq<u8>, &'static str>(INVALID_PADDING)
            &&& !misplaced && foreign ==> decoded(text) == Err::<Seq<u8>, &'static str>(
                INVALID_ALPHABET,
            )
            &&& !misplaced && !foreign && trailing ==> decoded(text) == Err::<
                Seq<u8>,
                &'static str,
            >(TRAILING_BITS)
            &&& !misplaced && !foreign && !trailing <==> decoded(text) is Ok
        }),
{
    if text.len() == 4 {
        assert(text.take(4) =~= text);
        assert(text.skip(4).len() == 0);
        let head = text.take(4 - padding_of(text));
        assert forall|i: int| 0 <= i < head.len() implies #[trigger] head[i] == text[i] by {}
        if head.contains(PAD) {
            let at = choose|at: int| 0 <= at < head.len() && head[at] == PAD;
            assert(text[at] == 61);
        }
        if padding_of(text) <= 2 {
            assert(head[0] == text[0] && head[1] == text[1]);
            if text[0] == 61 || text[1] == 61 {
                assert(head.contains(PAD));
            }
            if text[2] == 61 && text[3] != 61 {
                assert(head[2] == PAD);
                assert(head.contains(PAD));
            }
        }
        assert(decoded_groups(text.skip(4)) is Ok);
    }
}

/// A text is decoded group by group: the first refused group refuses it, and
/// only the last may be padded.
pub proof fn law_text_is_decoded_group_by_group(group: Seq<u8>, rest: Seq<u8>)
    requires
        group.len() == 4,
        rest.len() > 0,
        rest.len() % 4 == 0,
    ensures
        decoded(group + rest) is Ok <==> decoded(group) is Ok && group[3] != 61 && decoded(rest)
            is Ok,
        decoded(group + rest) is Ok ==> decoded(group + rest)->Ok_0 == decoded(group)->Ok_0
            + decoded(rest)->Ok_0,
        group[3] != 61 && decoded(group) is Err ==> decoded(group + rest) == decoded(group),
        group[3] == 61 ==> decoded(group + rest) == Err::<Seq<u8>, &'static str>(INVALID_PADDING),
        decoded(group) is Ok && group[3] != 61 && decoded(rest) is Err ==> decoded(group + rest)
            == decoded(rest),
{
    let text = group + rest;
    assert(text.take(4) =~= group);
    assert(text.skip(4) =~= rest);
    assert(group.take(4) =~= group);
    assert(group.skip(4).len() == 0);
    assert(decoded_groups(group.skip(4)) == Ok::<Seq<u8>, &'static str>(Seq::empty()));
    assert(group_bytes(group) + Seq::<u8>::empty() =~= group_bytes(group));
}

/// The lenient decoder takes whole groups alone and forgives padding and
/// trailing bits: each group gives its first byte, the second unless its third
/// place is padded, and the third unless its fourth is.
pub proof fn law_lenient_text_is_decoded_group_by_group(group: Seq<u8>, rest: Seq<u8>)
    requires
        group.len() == 4,
    ensures
        rest.len() % 4 != 0 ==> decoded_leniently(rest) is None,
        decoded_leniently(Seq::empty()) == Some(Seq::<u8>::empty()),
        rest.len() % 4 == 0 ==> (decoded_leniently(group + rest) is Some <==> decoded_leniently(
            group,
        ) is Some && decoded_leniently(rest) is Some),
        rest.len() % 4 == 0 && decoded_leniently(group + rest) is Some ==> decoded_leniently(
            group + rest,
        )->0 == decoded_leniently(group)->0 + decoded_leniently(rest)->0,
        decoded_leniently(group) is Some <==> sextet(group[0]) is Some && sextet(group[1]) is Some
            && (group[2] == 61 || sextet(group[2]) is Some) && (group[3] == 61 || sextet(group[3])
            is Some),
        decoded_leniently(group) matches Some(bytes) ==> {
            &&& bytes.len() == 1 + (if group[2] != 61 { 1int } else { 0 }) + (if group[3] != 61 {
                1int
            } else { 0 })
            &&& group[2] != 61 && group[3] != 61 ==> bytes[0] * 65_536 + bytes[1] * 256 + bytes[2]
                == place(group[0]) * 262_144 + place(group[1]) * 4_096 + place(group[2]) * 64
                + place(group[3])
        },
{
    let text = group + rest;
    assert(text.take(4) =~= group);
    assert(text.skip(4) =~= rest);
    assert(group.take(4) =~= group);
    assert(group.skip(4) =~= Seq::empty());
    assert(lenient_groups(group.skip(4)) == Some(Seq::<u8>::empty()));
    if lenient_group(group) is Some {
        assert(lenient_group(group)->0 + Seq::<u8>::empty() =~= lenient_group(group)->0);
        lemma_sextet_alphabet(group[0]);
        lemma_sextet_alphabet(group[1]);
        if group[2] != 61 && group[3] != 61 {
            lemma_sextet_alphabet(group[2]);
            lemma_sextet_alphabet(group[3]);
            let a = place(group[0]);
            let b = place(group[1]);
            let c = place(group[2]);
            let d = place(group[3]);
            assert(0 <= a * 4 + b / 16 < 256);
            assert(0 <= (b % 16) * 16 + c / 4 < 256);
            assert(0 <= (c % 4) * 64 + d < 256);
        }
    }
}

} // verus!
