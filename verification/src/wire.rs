//! How many bytes the fields of a protobuf message take up on the wire.
//!
//! The spec functions give the widths as numbers. The executable ones take them from `prost` and add
//! them up in a `CheckedUsize`, whose view is the exact sum, also where that is more than a `usize`
//! can hold.
use vstd::arithmetic::overflow::CheckedUsize;
use vstd::prelude::*;
use vstd::utf8::encode_utf8;

verus! {

/// The number of bytes of `value` as a base-128 varint: one for every seven bits.
pub open spec fn varint_len(value: nat) -> nat
    decreases value,
{
    if value < 128 {
        1
    } else {
        1 + varint_len(value / 128)
    }
}

/// The number of bytes of the key of field number `tag`, which the three bits of a wire type follow.
pub open spec fn key_len(tag: u32) -> nat {
    varint_len((tag * 8) as nat)
}

/// The field numbers that protobuf allows.
pub open spec fn is_tag(tag: u32) -> bool {
    1 <= tag <= 536_870_911
}

/// The number that stands for an `int32` on the wire, where a negative one is widened to 64 bits.
pub open spec fn int32_on_wire(value: i32) -> nat {
    if value < 0 {
        (value + 0x1_0000_0000_0000_0000) as nat
    } else {
        value as nat
    }
}

/// A length-delimited field: its key, the length of its body, and the body.
pub open spec fn delimited_len(tag: u32, body: nat) -> nat {
    key_len(tag) + varint_len(body) + body
}

/// A `string` field; an empty one is left out.
pub open spec fn string_len(tag: u32, value: Seq<char>) -> nat {
    if value.len() == 0 {
        0
    } else {
        delimited_len(tag, encode_utf8(value).len())
    }
}

/// A `bytes` field; an empty one is left out.
pub open spec fn bytes_len(tag: u32, value: Seq<u8>) -> nat {
    if value.len() == 0 {
        0
    } else {
        delimited_len(tag, value.len())
    }
}

/// An `int32` or enumeration field; zero is left out.
pub open spec fn int32_len(tag: u32, value: i32) -> nat {
    if value == 0 {
        0
    } else {
        key_len(tag) + varint_len(int32_on_wire(value))
    }
}

/// A `bool` field; `false` is left out.
pub open spec fn bool_len(tag: u32, value: bool) -> nat {
    if value {
        key_len(tag) + 1
    } else {
        0
    }
}

/// A message field with a body of the given length; an absent message is left out, an empty one is
/// not.
pub open spec fn message_len(tag: u32, body: Option<nat>) -> nat {
    match body {
        Some(n) => delimited_len(tag, n),
        None => 0,
    }
}

/// `prost::encoding::encoded_len_varint`: the number of bytes that `value` takes up as a varint.
#[verifier::external_body]
fn varint_width(value: u64) -> (n: usize)
    ensures
        n == varint_len(value as nat),
{
    prost::encoding::encoded_len_varint(value)
}

/// `prost::encoding::key_len`: the number of bytes of a field's key.
#[verifier::external_body]
fn key_width(tag: u32) -> (n: usize)
    requires
        is_tag(tag),
    ensures
        n == key_len(tag),
{
    prost::encoding::key_len(tag)
}

/// `prost::encoding::string::encoded_len`: the number of bytes of a string field, an empty string
/// included.
#[verifier::external_body]
fn string_width(tag: u32, value: &String) -> (n: usize)
    requires
        is_tag(tag),
    ensures
        n == delimited_len(tag, encode_utf8(value@).len()),
{
    prost::encoding::string::encoded_len(tag, value)
}

/// `prost::encoding::bytes::encoded_len`: the number of bytes of a bytes field, an empty one
/// included.
#[verifier::external_body]
fn bytes_width(tag: u32, value: &Vec<u8>) -> (n: usize)
    requires
        is_tag(tag),
    ensures
        n == delimited_len(tag, value@.len()),
{
    prost::encoding::bytes::encoded_len(tag, value)
}

/// `prost::encoding::int32::encoded_len`: the number of bytes of an `int32` field, zero included.
#[verifier::external_body]
fn int32_width(tag: u32, value: i32) -> (n: usize)
    requires
        is_tag(tag),
    ensures
        n == key_len(tag) + varint_len(int32_on_wire(value)),
{
    prost::encoding::int32::encoded_len(tag, &value)
}

/// `prost::encoding::bool::encoded_len`: the number of bytes of a `bool` field, `false` included.
#[verifier::external_body]
fn bool_width(tag: u32, value: bool) -> (n: usize)
    requires
        is_tag(tag),
    ensures
        n == key_len(tag) + 1,
{
    prost::encoding::bool::encoded_len(tag, &value)
}

/// Adds a string field to `sum`.
pub(crate) fn add_string(sum: CheckedUsize, tag: u32, value: &String) -> (total: CheckedUsize)
    requires
        is_tag(tag),
    ensures
        total@ == sum@ + string_len(tag, value@),
{
    if value.as_str().is_empty() {
        sum
    } else {
        sum.add_value(string_width(tag, value))
    }
}

/// Adds a bytes field to `sum`.
pub(crate) fn add_bytes(sum: CheckedUsize, tag: u32, value: &Vec<u8>) -> (total: CheckedUsize)
    requires
        is_tag(tag),
    ensures
        total@ == sum@ + bytes_len(tag, value@),
{
    if value.len() == 0 {
        sum
    } else {
        sum.add_value(bytes_width(tag, value))
    }
}

/// Adds an `int32` or enumeration field to `sum`.
pub(crate) fn add_int32(sum: CheckedUsize, tag: u32, value: i32) -> (total: CheckedUsize)
    requires
        is_tag(tag),
    ensures
        total@ == sum@ + int32_len(tag, value),
{
    if value == 0 {
        sum
    } else {
        sum.add_value(int32_width(tag, value))
    }
}

/// Adds a `bool` field to `sum`.
pub(crate) fn add_bool(sum: CheckedUsize, tag: u32, value: bool) -> (total: CheckedUsize)
    requires
        is_tag(tag),
    ensures
        total@ == sum@ + bool_len(tag, value),
{
    if value {
        sum.add_value(bool_width(tag, value))
    } else {
        sum
    }
}

/// Adds a field to `sum` whose body is a message that is held in wire form.
pub(crate) fn add_encoded(sum: CheckedUsize, tag: u32, body: &Vec<u8>) -> (total: CheckedUsize)
    requires
        is_tag(tag),
    ensures
        total@ == sum@ + delimited_len(tag, body@.len()),
{
    sum.add_value(bytes_width(tag, body))
}

/// Adds a field to `sum` whose body is a message of the given length.
pub(crate) fn add_message(sum: CheckedUsize, tag: u32, body: CheckedUsize) -> (total: CheckedUsize)
    requires
        is_tag(tag),
    ensures
        total@ == sum@ + delimited_len(tag, body@),
{
    match body.to_option() {
        Some(n) => sum.add_value(n).add_value(key_width(tag)).add_value(varint_width(n as u64)),
        None => CheckedUsize::new_overflowed(Ghost((sum@ + delimited_len(tag, body@)) as int)),
    }
}

} // verus!
