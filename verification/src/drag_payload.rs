//! Pasteboard encoding of a custom drag: the length of the type name in four big-endian bytes,
//! the type name, the data.

use vstd::prelude::*;
use vstd::arithmetic::div_mod::{lemma_div_denominator, lemma_fundamental_div_mod};
use vstd::utf8::{decode_utf8, encode_utf8, valid_utf8};

verus! {

/// The four big-endian bytes of `value`, which is taken modulo `2^32`.
pub open spec fn be_bytes(value: nat) -> Seq<u8> {
    seq![
        ((value / 0x100_0000) % 0x100) as u8,
        ((value / 0x1_0000) % 0x100) as u8,
        ((value / 0x100) % 0x100) as u8,
        (value % 0x100) as u8,
    ]
}

/// The number that the first four bytes represent.
pub open spec fn be_value(bytes: Seq<u8>) -> nat {
    (bytes[0] as nat) * 0x100_0000 + (bytes[1] as nat) * 0x1_0000 + (bytes[2] as nat) * 0x100 + (
    bytes[3] as nat)
}

/// The encoding of a payload.
pub open spec fn encoded_payload(drag_type: Seq<char>, data: Seq<u8>) -> Seq<u8> {
    be_bytes(encode_utf8(drag_type).len()) + encode_utf8(drag_type) + data
}

/// The payload that `bytes` encode, if they do: they hold a length, as many bytes of valid UTF-8,
/// and the data.
pub open spec fn decoded_payload(bytes: Seq<u8>) -> Option<(Seq<char>, Seq<u8>)> {
    if bytes.len() < 4 || bytes.len() < 4 + be_value(bytes) {
        None
    } else {
        let end = 4 + be_value(bytes) as int;
        let name = bytes.subrange(4, end);
        if valid_utf8(name) {
            Some((decode_utf8(name), bytes.subrange(end, bytes.len() as int)))
        } else {
            None
        }
    }
}

/// `String::from_utf8`: the string that the bytes encode, or `None` if they are not valid UTF-8.
#[verifier::external_body]
pub(crate) fn string_from_utf8(bytes: Vec<u8>) -> (result: Option<String>)
    ensures
        result is Some <==> valid_utf8(bytes@),
        result is Some ==> result->0@ == decode_utf8(bytes@),
{
    String::from_utf8(bytes).ok()
}

/// Copies part of a slice.
pub(crate) fn copy_range(bytes: &[u8], start: usize, end: usize) -> (result: Vec<u8>)
    requires
        start <= end <= bytes@.len(),
    ensures
        result@ == bytes@.subrange(start as int, end as int),
{
    let mut result: Vec<u8> = Vec::new();
    let mut i: usize = start;
    while i < end
        invariant
            start <= i <= end <= bytes@.len(),
            result@ == bytes@.subrange(start as int, i as int),
        decreases end - i,
    {
        result.push(bytes[i]);
        i = i + 1;
    }
    result
}

/// Encodes a payload.
pub fn encode_custom_drag_payload(drag_type: &str, data: &[u8]) -> (result: Vec<u8>)
    ensures
        result@ == encoded_payload(drag_type@, data@),
{
    let name: &[u8] = drag_type.as_bytes();
    let length: usize = name.len();
    let mut encoded: Vec<u8> = Vec::new();
    encoded.push(((length / 0x100_0000) % 0x100) as u8);
    encoded.push(((length / 0x1_0000) % 0x100) as u8);
    encoded.push(((length / 0x100) % 0x100) as u8);
    encoded.push((length % 0x100) as u8);
    encoded.extend_from_slice(name);
    encoded.extend_from_slice(data);
    assert(encoded@ =~= encoded_payload(drag_type@, data@));
    encoded
}

/// Decodes a payload.
pub fn decode_custom_drag_payload(bytes: &[u8]) -> (result: Option<(String, Vec<u8>)>)
    ensures
        match result {
            Some(payload) => decoded_payload(bytes@) == Some((payload.0@, payload.1@)),
            None => decoded_payload(bytes@) is None,
        },
{
    if bytes.len() < 4 {
        return None;
    }
    let length: u64 = bytes[0] as u64 * 0x100_0000 + bytes[1] as u64 * 0x1_0000 + bytes[2] as u64
        * 0x100 + bytes[3] as u64;
    if length > (bytes.len() - 4) as u64 {
        return None;
    }
    let end: usize = 4 + length as usize;
    let name: Vec<u8> = copy_range(bytes, 4, end);
    let data: Vec<u8> = copy_range(bytes, end, bytes.len());
    match string_from_utf8(name) {
        Some(drag_type) => Some((drag_type, data)),
        None => None,
    }
}

/// What was encoded is decoded again, for every type name shorter than 4 GiB.
pub proof fn decode_inverts_encode(drag_type: Seq<char>, data: Seq<u8>)
    requires
        encode_utf8(drag_type).len() < 0x1_0000_0000,
    ensures
        decoded_payload(encoded_payload(drag_type, data)) == Some((drag_type, data)),
{
    let name = encode_utf8(drag_type);
    let bytes = encoded_payload(drag_type, data);
    assert(be_value(bytes) == name.len()) by {
        lemma_base_256_value(name.len() as int);
    }
    assert(bytes.subrange(4, 4 + name.len() as int) =~= name);
    assert(bytes.subrange(4 + name.len() as int, bytes.len() as int) =~= data);
    vstd::utf8::encode_utf8_valid_utf8(drag_type);
    vstd::utf8::encode_utf8_decode_utf8(drag_type);
}

/// A number below `2^32` is the sum of its four digits in base 256.
proof fn lemma_base_256_value(value: int)
    requires
        0 <= value < 0x1_0000_0000,
    ensures
        ((value / 0x100_0000) % 0x100) * 0x100_0000 + ((value / 0x1_0000) % 0x100) * 0x1_0000 + ((
        value / 0x100) % 0x100) * 0x100 + value % 0x100 == value,
{
    lemma_div_denominator(value, 0x100, 0x100);
    lemma_div_denominator(value, 0x1_0000, 0x100);
    lemma_fundamental_div_mod(value, 0x100);
    lemma_fundamental_div_mod(value / 0x100, 0x100);
    lemma_fundamental_div_mod(value / 0x1_0000, 0x100);
    assert(value / 0x100_0000 < 0x100);
}

/// The digits of a number in base 256 are found by division.
proof fn lemma_base_256_digits(a: int, b: int, c: int, d: int)
    requires
        0 <= a < 256,
        0 <= b < 256,
        0 <= c < 256,
        0 <= d < 256,
    ensures
        ({
            let value = a * 0x100_0000 + b * 0x1_0000 + c * 0x100 + d;
            &&& (value / 0x100_0000) % 0x100 == a
            &&& (value / 0x1_0000) % 0x100 == b
            &&& (value / 0x100) % 0x100 == c
            &&& value % 0x100 == d
        }),
{
    let value = a * 0x100_0000 + b * 0x1_0000 + c * 0x100 + d;
    let upper_three = a * 0x1_0000 + b * 0x100 + c;
    let upper_two = a * 0x100 + b;
    lemma_last_digit(upper_three, d, value);
    lemma_last_digit(upper_two, c, upper_three);
    lemma_last_digit(a, b, upper_two);
    assert(value / 0x1_0000 == upper_two) by (nonlinear_arith)
        requires
            value == upper_two * 0x1_0000 + (c * 0x100 + d),
            0 <= c * 0x100 + d < 0x1_0000,
    ;
    assert(value / 0x100_0000 == a) by (nonlinear_arith)
        requires
            value == a * 0x100_0000 + (b * 0x1_0000 + c * 0x100 + d),
            0 <= b * 0x1_0000 + c * 0x100 + d < 0x100_0000,
    ;
    assert(a % 0x100 == a);
}

/// Division by the base parts the last digit from the others.
proof fn lemma_last_digit(upper: int, digit: int, value: int)
    by (nonlinear_arith)
    requires
        0 <= digit < 0x100,
        value == upper * 0x100 + digit,
    ensures
        value / 0x100 == upper,
        value % 0x100 == digit,
{
}

/// Bytes that decode are the encoding of what they decode to.
pub proof fn encode_inverts_decode(bytes: Seq<u8>)
    requires
        decoded_payload(bytes) is Some,
    ensures
        ({
            let payload = decoded_payload(bytes)->0;
            encoded_payload(payload.0, payload.1) == bytes
        }),
{
    let payload = decoded_payload(bytes)->0;
    let length = be_value(bytes);
    let name = bytes.subrange(4, 4 + length as int);
    vstd::utf8::decode_utf8_encode_utf8(name);
    assert(be_bytes(length) =~= bytes.subrange(0, 4)) by {
        lemma_base_256_digits(
            bytes[0] as int,
            bytes[1] as int,
            bytes[2] as int,
            bytes[3] as int,
        );
    }
    assert(encoded_payload(payload.0, payload.1) =~= bytes);
}

/// An encoded payload is the length of its type name in four bytes, the most significant first, the
/// name in UTF-8, and the data, with nothing in between or after.
pub proof fn payloads_are_laid_out_as_agreed(drag_type: Seq<char>, data: Seq<u8>)
    requires
        encode_utf8(drag_type).len() < 0x1_0000_0000,
    ensures
        ({
            let bytes = encoded_payload(drag_type, data);
            let name = encode_utf8(drag_type);
            &&& bytes.len() == 4 + name.len() + data.len()
            &&& bytes[0] * 0x100_0000 + bytes[1] * 0x1_0000 + bytes[2] * 0x100 + bytes[3]
                == name.len()
            &&& bytes.subrange(4, 4 + name.len() as int) == name
            &&& bytes.skip(4 + name.len() as int) == data
        }),
{
    let name = encode_utf8(drag_type);
    let bytes = encoded_payload(drag_type, data);
    lemma_base_256_value(name.len() as int);
    assert(bytes.subrange(4, 4 + name.len() as int) =~= name);
    assert(bytes.skip(4 + name.len() as int) =~= data);
}

/// Bytes are refused exactly if they are too short for a length, or for the name that their length
/// promises, or if that name is not UTF-8.
pub proof fn broken_payloads_are_refused(bytes: Seq<u8>)
    ensures
        bytes.len() < 4 ==> decoded_payload(bytes) is None,
        bytes.len() >= 4 ==> {
            let length = bytes[0] * 0x100_0000 + bytes[1] * 0x1_0000 + bytes[2] * 0x100 + bytes[3];
            &&& bytes.len() - 4 < length ==> decoded_payload(bytes) is None
            &&& bytes.len() - 4 >= length ==> {
                let name = bytes.subrange(4, 4 + length);
                &&& decoded_payload(bytes) is Some <==> valid_utf8(name)
                &&& valid_utf8(name) ==> decoded_payload(bytes) == Some(
                    (decode_utf8(name), bytes.subrange(4 + length, bytes.len() as int)),
                )
            }
        },
{
}

} // verus!
