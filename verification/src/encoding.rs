//! Big-endian and length-prefixed byte encodings, and why they are injective.

use vstd::prelude::*;
use vstd::utf8::encode_utf8;

use crate::text::push_bytes;

verus! {

/// The `width` low-order base-256 digits of `value`, most significant first.
pub open spec fn be_bytes(value: nat, width: nat) -> Seq<u8>
    decreases width,
{
    if width == 0 {
        Seq::empty()
    } else {
        be_bytes(value / 256, (width - 1) as nat).push((value % 256) as u8)
    }
}

/// Whether `value` is below 256 to the power `width`.
pub open spec fn fits(value: nat, width: nat) -> bool
    decreases width,
{
    if width == 0 {
        value == 0
    } else {
        fits(value / 256, (width - 1) as nat)
    }
}

/// Two's-complement reading of a signed 64-bit value.
pub open spec fn unsigned_of_i64(value: i64) -> nat {
    if value < 0 {
        (value + 0x1_0000_0000_0000_0000) as nat
    } else {
        value as nat
    }
}

/// Two's-complement reading of a signed 32-bit value.
pub open spec fn unsigned_of_i32(value: i32) -> nat {
    if value < 0 {
        (value + 0x1_0000_0000) as nat
    } else {
        value as nat
    }
}

/// Eight big-endian bytes of an unsigned value.
pub open spec fn be64(value: u64) -> Seq<u8> {
    be_bytes(value as nat, 8)
}

/// Four big-endian bytes of an unsigned value.
pub open spec fn be32(value: u32) -> Seq<u8> {
    be_bytes(value as nat, 4)
}

/// Eight big-endian bytes of a signed value.
pub open spec fn be_i64(value: i64) -> Seq<u8> {
    be_bytes(unsigned_of_i64(value), 8)
}

/// Four big-endian bytes of a signed value.
pub open spec fn be_i32(value: i32) -> Seq<u8> {
    be_bytes(unsigned_of_i32(value), 4)
}

/// A byte string behind its 64-bit big-endian length.
pub open spec fn framed_bytes(bytes: Seq<u8>) -> Seq<u8> {
    be_bytes(bytes.len(), 8) + bytes
}

/// A text behind its 64-bit big-endian byte length.
pub open spec fn framed(text: Seq<char>) -> Seq<u8> {
    framed_bytes(encode_utf8(text))
}

/// Whether a text's byte length can be written in 64 bits, as that of every
/// string in memory can.
pub open spec fn frameable(text: Seq<char>) -> bool {
    encode_utf8(text).len() <= u64::MAX
}

proof fn lemma_be_bytes_len(value: nat, width: nat)
    ensures
        be_bytes(value, width).len() == width,
    decreases width,
{
    if width > 0 {
        lemma_be_bytes_len(value / 256, (width - 1) as nat);
    }
}

proof fn lemma_be_bytes_injective(left: nat, right: nat, width: nat)
    requires
        fits(left, width),
        fits(right, width),
        be_bytes(left, width) == be_bytes(right, width),
    ensures
        left == right,
    decreases width,
{
    if width > 0 {
        let narrow = (width - 1) as nat;
        let prefix_left = be_bytes(left / 256, narrow);
        let prefix_right = be_bytes(right / 256, narrow);
        lemma_be_bytes_len(left / 256, narrow);
        lemma_be_bytes_len(right / 256, narrow);
        assert(be_bytes(left, width).drop_last() =~= prefix_left);
        assert(be_bytes(right, width).drop_last() =~= prefix_right);
        assert(be_bytes(left, width).last() == (left % 256) as u8);
        assert(be_bytes(right, width).last() == (right % 256) as u8);
        lemma_be_bytes_injective(left / 256, right / 256, narrow);
    }
}

proof fn lemma_fits_u64(value: nat)
    requires
        value <= u64::MAX,
    ensures
        fits(value, 8),
{
    reveal_with_fuel(fits, 9);
}

proof fn lemma_fits_u32(value: nat)
    requires
        value <= u32::MAX,
    ensures
        fits(value, 4),
{
    reveal_with_fuel(fits, 5);
}

/// Splitting two equal concatenations whose heads are equally long.
pub proof fn lemma_concat_split<A>(a: Seq<A>, b: Seq<A>, c: Seq<A>, d: Seq<A>)
    requires
        a + b == c + d,
        a.len() == c.len(),
    ensures
        a == c,
        b == d,
{
    assert(a =~= (a + b).take(a.len() as int));
    assert(c =~= (c + d).take(a.len() as int));
    assert(b =~= (a + b).skip(a.len() as int));
    assert(d =~= (c + d).skip(a.len() as int));
}

/// Concatenation does not depend on where it is bracketed.
pub proof fn lemma_concat_assoc<A>(a: Seq<A>, b: Seq<A>, c: Seq<A>)
    ensures
        (a + b) + c == a + (b + c),
{
    assert((a + b) + c =~= a + (b + c));
}

/// Equal encodings of two unsigned 64-bit values that begin two equal byte
/// strings come from equal values, and leave equal remainders.
pub proof fn lemma_be64_head(left: u64, rest_left: Seq<u8>, right: u64, rest_right: Seq<u8>)
    requires
        be64(left) + rest_left == be64(right) + rest_right,
    ensures
        left == right,
        rest_left == rest_right,
{
    lemma_be_bytes_len(left as nat, 8);
    lemma_be_bytes_len(right as nat, 8);
    lemma_concat_split(be64(left), rest_left, be64(right), rest_right);
    lemma_fits_u64(left as nat);
    lemma_fits_u64(right as nat);
    lemma_be_bytes_injective(left as nat, right as nat, 8);
}

/// As [`lemma_be64_head`], for unsigned 32-bit values.
pub proof fn lemma_be32_head(left: u32, rest_left: Seq<u8>, right: u32, rest_right: Seq<u8>)
    requires
        be32(left) + rest_left == be32(right) + rest_right,
    ensures
        left == right,
        rest_left == rest_right,
{
    lemma_be_bytes_len(left as nat, 4);
    lemma_be_bytes_len(right as nat, 4);
    lemma_concat_split(be32(left), rest_left, be32(right), rest_right);
    lemma_fits_u32(left as nat);
    lemma_fits_u32(right as nat);
    lemma_be_bytes_injective(left as nat, right as nat, 4);
}

/// As [`lemma_be64_head`], for signed 64-bit values.
pub proof fn lemma_be_i64_head(left: i64, rest_left: Seq<u8>, right: i64, rest_right: Seq<u8>)
    requires
        be_i64(left) + rest_left == be_i64(right) + rest_right,
    ensures
        left == right,
        rest_left == rest_right,
{
    lemma_be_bytes_len(unsigned_of_i64(left), 8);
    lemma_be_bytes_len(unsigned_of_i64(right), 8);
    lemma_concat_split(be_i64(left), rest_left, be_i64(right), rest_right);
    lemma_fits_u64(unsigned_of_i64(left));
    lemma_fits_u64(unsigned_of_i64(right));
    lemma_be_bytes_injective(unsigned_of_i64(left), unsigned_of_i64(right), 8);
}

/// As [`lemma_be64_head`], for signed 32-bit values.
pub proof fn lemma_be_i32_head(left: i32, rest_left: Seq<u8>, right: i32, rest_right: Seq<u8>)
    requires
        be_i32(left) + rest_left == be_i32(right) + rest_right,
    ensures
        left == right,
        rest_left == rest_right,
{
    lemma_be_bytes_len(unsigned_of_i32(left), 4);
    lemma_be_bytes_len(unsigned_of_i32(right), 4);
    lemma_concat_split(be_i32(left), rest_left, be_i32(right), rest_right);
    lemma_fits_u32(unsigned_of_i32(left));
    lemma_fits_u32(unsigned_of_i32(right));
    lemma_be_bytes_injective(unsigned_of_i32(left), unsigned_of_i32(right), 4);
}

/// A signed 64-bit value takes eight bytes.
pub proof fn lemma_be_i64_len(value: i64)
    ensures
        be_i64(value).len() == 8,
{
    lemma_be_bytes_len(unsigned_of_i64(value), 8);
}

proof fn lemma_encoded_length(text: Seq<char>)
    ensures
        encode_utf8(text).len() <= 4 * text.len(),
    decreases text.len(),
{
    if text.len() > 0 {
        lemma_encoded_length(text.drop_first());
    }
}

/// A short text can be framed.
pub proof fn lemma_short_text_is_frameable(text: Seq<char>)
    requires
        text.len() <= 4096,
    ensures
        frameable(text),
{
    lemma_encoded_length(text);
}

/// Length-prefixed texts that begin two equal byte strings are equal, and
/// leave equal remainders.
pub proof fn lemma_framed_head(
    left: Seq<char>,
    rest_left: Seq<u8>,
    right: Seq<char>,
    rest_right: Seq<u8>,
)
    requires
        frameable(left),
        frameable(right),
        framed(left) + rest_left == framed(right) + rest_right,
    ensures
        left == right,
        rest_left == rest_right,
{
    let bytes_left = encode_utf8(left);
    let bytes_right = encode_utf8(right);
    let n = bytes_left.len() as u64;
    let m = bytes_right.len() as u64;
    assert(framed(left) + rest_left =~= be64(n) + (bytes_left + rest_left));
    assert(framed(right) + rest_right =~= be64(m) + (bytes_right + rest_right));
    lemma_be64_head(n, bytes_left + rest_left, m, bytes_right + rest_right);
    lemma_concat_split(bytes_left, rest_left, bytes_right, rest_right);
    vstd::utf8::encode_utf8_decode_utf8(left);
    vstd::utf8::encode_utf8_decode_utf8(right);
}

/// Appends the `width` low-order bytes of `value`, most significant first.
fn push_be(output: &mut Vec<u8>, value: u64, width: u32)
    ensures
        final(output)@ == old(output)@ + be_bytes(value as nat, width as nat),
    decreases width,
{
    if width > 0 {
        push_be(output, value / 256, width - 1);
        output.push((value % 256) as u8);
        assert(output@ =~= old(output)@ + be_bytes(value as nat, width as nat));
    } else {
        assert(output@ =~= old(output)@ + be_bytes(value as nat, 0));
    }
}

/// Appends eight big-endian bytes.
pub fn push_u64(output: &mut Vec<u8>, value: u64)
    ensures
        final(output)@ == old(output)@ + be64(value),
{
    push_be(output, value, 8);
}

/// Appends four big-endian bytes.
pub fn push_u32(output: &mut Vec<u8>, value: u32)
    ensures
        final(output)@ == old(output)@ + be32(value),
{
    push_be(output, value as u64, 4);
}

/// Appends eight big-endian bytes of a signed value.
pub fn push_i64(output: &mut Vec<u8>, value: i64)
    ensures
        final(output)@ == old(output)@ + be_i64(value),
{
    if value < 0 {
        let complement: u64 = (-(value + 1)) as u64;
        push_be(output, u64::MAX - complement, 8);
    } else {
        push_be(output, value as u64, 8);
    }
}

/// Appends four big-endian bytes of a signed value.
pub fn push_i32(output: &mut Vec<u8>, value: i32)
    ensures
        final(output)@ == old(output)@ + be_i32(value),
{
    if value < 0 {
        let complement: u32 = (-(value + 1)) as u32;
        push_be(output, (u32::MAX - complement) as u64, 4);
    } else {
        push_be(output, value as u64, 4);
    }
}

/// Appends `text` behind its 64-bit big-endian byte length.
pub fn push_framed(output: &mut Vec<u8>, text: &str)
    ensures
        final(output)@ == old(output)@ + framed(text@),
{
    let bytes = text.as_bytes();
    push_u64(output, bytes.len() as u64);
    push_bytes(output, bytes);
    assert(output@ =~= old(output)@ + framed(text@));
}

/// Numbers are written with their greatest byte first, negative ones in two's
/// complement.
pub proof fn law_numbers_are_written_big_endian(
    small: u32,
    large: u64,
    signed_small: i32,
    signed_large: i64,
)
    ensures
        be32(small).len() == 4,
        small == be32(small)[0] * 16_777_216 + be32(small)[1] * 65_536 + be32(small)[2] * 256
            + be32(small)[3],
        be64(large).len() == 8,
        large == be64(large)[0] * 72_057_594_037_927_936 + be64(large)[1] * 281_474_976_710_656
            + be64(large)[2] * 1_099_511_627_776 + be64(large)[3] * 4_294_967_296 + be64(large)[4]
            * 16_777_216 + be64(large)[5] * 65_536 + be64(large)[6] * 256 + be64(large)[7],
        signed_small >= 0 ==> be_i32(signed_small) == be32(signed_small as u32),
        signed_small < 0 ==> be_i32(signed_small) == be32((signed_small + 4_294_967_296) as u32),
        signed_large >= 0 ==> be_i64(signed_large) == be64(signed_large as u64),
        signed_large < 0 ==> be_i64(signed_large) == be64(
            (signed_large + 18_446_744_073_709_551_616) as u64,
        ),
{
    reveal_with_fuel(be_bytes, 9);
    let a = small as nat;
    assert(a / 256 / 256 / 256 < 256);
    assert(a == (a / 256 / 256 / 256) * 16_777_216 + (a / 256 / 256) % 256 * 65_536 + (a / 256)
        % 256 * 256 + a % 256);
    let b = large as nat;
    assert(b / 256 / 256 / 256 / 256 / 256 / 256 / 256 < 256);
}

/// Framed bytes are their length in eight bytes and the bytes.
pub proof fn law_frame_is_length_and_bytes(text: Seq<char>)
    requires
        frameable(text),
    ensures
        framed(text) == be64(encode_utf8(text).len() as u64) + encode_utf8(text),
        framed(text).len() == 8 + encode_utf8(text).len(),
{
    reveal_with_fuel(be_bytes, 9);
}

} // verus!
