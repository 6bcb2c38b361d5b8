//! The protobuf wire format of the fields that the requests carry, and the
//! encoders of `prost` that write them.
//!
//! The spec functions say which bytes a field takes on the wire. The executable
//! functions of this file hand the work to `prost`: what they say of it is
//! believed, not proved.

use vstd::prelude::*;
use vstd::utf8::encode_utf8;

verus! {

/// The largest field number that the wire format admits.
pub const MAX_TAG: u32 = 536_870_911;

/// A number in the base-128 variable-length format: seven bits to a byte, low
/// bits first, the high bit set on every byte but the last.
pub open spec fn varint(value: nat) -> Seq<u8>
    decreases value,
{
    if value < 128 {
        seq![value as u8]
    } else {
        seq![(128 + value % 128) as u8] + varint(value / 128)
    }
}

/// The key that opens a field: its number and its wire type in one varint.
pub open spec fn field_key(tag: u32, wire_type: nat) -> Seq<u8> {
    varint((tag * 8 + wire_type) as nat)
}

/// A signed number as the unsigned 64-bit number with the same bits.
pub open spec fn as_unsigned64(value: int) -> nat {
    if value >= 0 {
        value as nat
    } else {
        (value + 0x1_0000_0000_0000_0000) as nat
    }
}

/// The eight bytes of a 64-bit number, low byte first.
pub open spec fn le64(bits: u64) -> Seq<u8> {
    seq![
        (bits % 0x100) as u8,
        (bits / 0x100 % 0x100) as u8,
        (bits / 0x1_0000 % 0x100) as u8,
        (bits / 0x100_0000 % 0x100) as u8,
        (bits / 0x1_0000_0000 % 0x100) as u8,
        (bits / 0x100_0000_0000 % 0x100) as u8,
        (bits / 0x1_0000_0000_0000 % 0x100) as u8,
        (bits / 0x100_0000_0000_0000 % 0x100) as u8,
    ]
}

/// An `int64` field.
pub open spec fn int64_field(tag: u32, value: i64) -> Seq<u8> {
    field_key(tag, 0) + varint(as_unsigned64(value as int))
}

/// An `int32` field, or one of an enumeration: a negative number takes ten
/// bytes, as if it were an `int64`.
pub open spec fn int32_field(tag: u32, value: i32) -> Seq<u8> {
    field_key(tag, 0) + varint(as_unsigned64(value as int))
}

/// A `uint32` field.
pub open spec fn uint32_field(tag: u32, value: u32) -> Seq<u8> {
    field_key(tag, 0) + varint(value as nat)
}

/// A `bool` field.
pub open spec fn bool_field(tag: u32, value: bool) -> Seq<u8> {
    field_key(tag, 0) + varint(if value { 1 } else { 0 })
}

/// A `string` field: the length of the text in bytes, then its UTF-8 bytes.
pub open spec fn string_field(tag: u32, text: Seq<char>) -> Seq<u8> {
    field_key(tag, 2) + varint(encode_utf8(text).len()) + encode_utf8(text)
}

/// A `double` field, given the bits of the number.
pub open spec fn double_field(tag: u32, bits: u64) -> Seq<u8> {
    field_key(tag, 1) + le64(bits)
}

/// A repeated `int64` field that is not packed: one field for each number, in
/// order.
pub open spec fn repeated_int64_field(tag: u32, values: Seq<i64>) -> Seq<u8>
    decreases values.len(),
{
    if values.len() == 0 {
        Seq::empty()
    } else {
        repeated_int64_field(tag, values.drop_last()) + int64_field(tag, values.last())
    }
}

/// Whether `tag` is a field number that the wire format admits.
pub open spec fn valid_tag(tag: u32) -> bool {
    1 <= tag <= MAX_TAG
}

/// `prost::encoding::int64::encode`: appends the key of a varint field and the
/// number, cast to `u64`, as a varint.
#[verifier::external_body]
pub(crate) fn put_int64(tag: u32, value: i64, buf: &mut Vec<u8>)
    requires
        valid_tag(tag),
    ensures
        final(buf)@ == old(buf)@ + int64_field(tag, value),
{
    prost::encoding::int64::encode(tag, &value, buf);
}

/// `prost::encoding::int32::encode`: appends the key of a varint field and the
/// number, cast to `u64`, as a varint.
#[verifier::external_body]
pub(crate) fn put_int32(tag: u32, value: i32, buf: &mut Vec<u8>)
    requires
        valid_tag(tag),
    ensures
        final(buf)@ == old(buf)@ + int32_field(tag, value),
{
    prost::encoding::int32::encode(tag, &value, buf);
}

/// `prost::encoding::uint32::encode`: appends the key of a varint field and the
/// number as a varint.
#[verifier::external_body]
pub(crate) fn put_uint32(tag: u32, value: u32, buf: &mut Vec<u8>)
    requires
        valid_tag(tag),
    ensures
        final(buf)@ == old(buf)@ + uint32_field(tag, value),
{
    prost::encoding::uint32::encode(tag, &value, buf);
}

/// `prost::encoding::bool::encode`: appends the key of a varint field and one
/// byte, 1 for `true` and 0 for `false`.
#[verifier::external_body]
pub(crate) fn put_bool(tag: u32, value: bool, buf: &mut Vec<u8>)
    requires
        valid_tag(tag),
    ensures
        final(buf)@ == old(buf)@ + bool_field(tag, value),
{
    prost::encoding::bool::encode(tag, &value, buf);
}

/// `prost::encoding::string::encode`: appends the key of a length-delimited
/// field, the length of the text in bytes as a varint, and the bytes.
#[verifier::external_body]
pub(crate) fn put_string(tag: u32, value: &String, buf: &mut Vec<u8>)
    requires
        valid_tag(tag),
    ensures
        final(buf)@ == old(buf)@ + string_field(tag, value@),
{
    prost::encoding::string::encode(tag, value, buf);
}

/// `prost::encoding::fixed64::encode`: appends the key of a 64-bit field and
/// the eight bytes of the number, low byte first. A `double` has the same wire
/// type and, for the number with these bits, the same eight bytes.
#[verifier::external_body]
pub(crate) fn put_double_bits(tag: u32, bits: u64, buf: &mut Vec<u8>)
    requires
        valid_tag(tag),
    ensures
        final(buf)@ == old(buf)@ + double_field(tag, bits),
{
    prost::encoding::fixed64::encode(tag, &bits, buf);
}

/// `prost::encoding::int64::encode_repeated`: appends one `int64` field for
/// each number, in order.
#[verifier::external_body]
pub(crate) fn put_repeated_int64(tag: u32, values: &Vec<i64>, buf: &mut Vec<u8>)
    requires
        valid_tag(tag),
    ensures
        final(buf)@ == old(buf)@ + repeated_int64_field(tag, values@),
{
    prost::encoding::int64::encode_repeated(tag, values, buf);
}

} // verus!
