//! How numbers, flags, byte strings, text, names, keys and times are written down, and how
//! they are read back.
//!
//! Every `wire_` function gives the bytes of a value. Every `parse_` function reads one value
//! off the front of a byte string and gives it together with the bytes behind it, or `None`
//! where the front holds no such value.

use vstd::bytes::lemma_auto_spec_u64_to_from_le_bytes;
use vstd::bytes::spec_u64_from_le_bytes;
use vstd::bytes::spec_u64_to_le_bytes;
use vstd::bytes::u64_from_le_bytes;
use vstd::bytes::u64_to_le_bytes;
use vstd::prelude::*;
use vstd::slice::slice_subrange;
use vstd::utf8::decode_utf8;
use vstd::utf8::encode_utf8;
use vstd::utf8::encode_utf8_decode_utf8;
use vstd::utf8::encode_utf8_valid_utf8;
use vstd::utf8::valid_utf8;

use crate::clock::Time;
use crate::metadata::directory_key::lemma_key_is_its_parts;
use crate::metadata::directory_key::DirectoryKey;
use crate::name::lemma_name_view;
use crate::name::NetworkName;
use crate::name::NAME_LEN;
use crate::AccessLevel;

verus! {

/// What lies at and behind place `at` of `data`.
pub open spec fn tail(data: Seq<u8>, at: int) -> Seq<u8> {
    data.subrange(at, data.len() as int)
}

/// The tail of a tail is a tail, and a part of a tail is a part of the whole.
pub proof fn lemma_tail(data: Seq<u8>, at: int, n: int)
    requires
        0 <= at,
        0 <= n,
        at + n <= data.len(),
    ensures
        tail(tail(data, at), n) == tail(data, at + n),
        tail(data, at).subrange(0, n) == data.subrange(at, at + n),
        tail(data, at).len() == data.len() - at,
        tail(data, 0) == data,
{
    assert(tail(tail(data, at), n) =~= tail(data, at + n));
    assert(tail(data, at).subrange(0, n) =~= data.subrange(at, at + n));
    assert(tail(data, 0) =~= data);
}

/// Appends a copy of `bytes` to `out`.
pub fn append_bytes(out: &mut Vec<u8>, bytes: &[u8])
    ensures
        final(out)@ == old(out)@ + bytes@,
{
    let mut i: usize = 0;
    while i < bytes.len()
        invariant
            0 <= i <= bytes.len(),
            out@ == old(out)@ + bytes@.subrange(0, i as int),
        decreases bytes.len() - i,
    {
        out.push(bytes[i]);
        assert(out@ =~= old(out)@ + bytes@.subrange(0, i + 1));
        i += 1;
    }
    assert(out@ =~= old(out)@ + bytes@);
}

/// The bytes of `data` from place `at` up to place `to`.
pub fn copy_range(data: &Vec<u8>, at: usize, to: usize) -> (part: Vec<u8>)
    requires
        at <= to <= data.len(),
    ensures
        part@ == data@.subrange(at as int, to as int),
{
    let mut part: Vec<u8> = Vec::with_capacity(to - at);
    let mut i: usize = at;
    while i < to
        invariant
            at <= i <= to <= data.len(),
            part@ == data@.subrange(at as int, i as int),
        decreases to - i,
    {
        part.push(data[i]);
        assert(part@ =~= data@.subrange(at as int, i + 1));
        i += 1;
    }
    part
}

/// A number is written as eight bytes, the lowest first.
pub open spec fn wire_u64(value: u64) -> Seq<u8> {
    spec_u64_to_le_bytes(value)
}

/// Reads a number off the front.
pub open spec fn parse_u64(bytes: Seq<u8>) -> Option<(u64, Seq<u8>)> {
    if bytes.len() >= 8 {
        Some((spec_u64_from_le_bytes(bytes.subrange(0, 8)), tail(bytes, 8)))
    } else {
        None
    }
}

/// A number that was written is read back, and what stood behind it is left over.
pub proof fn lemma_u64_round_trip(value: u64, rest: Seq<u8>)
    ensures
        wire_u64(value).len() == 8,
        parse_u64(wire_u64(value) + rest) == Some((value, rest)),
{
    lemma_auto_spec_u64_to_from_le_bytes();
    let bytes = wire_u64(value) + rest;
    assert(bytes.subrange(0, 8) =~= wire_u64(value));
    assert(tail(bytes, 8) =~= rest);
}

/// Writes a number behind what `out` holds.
pub fn write_u64(value: u64, out: &mut Vec<u8>)
    ensures
        final(out)@ == old(out)@ + wire_u64(value),
{
    let bytes = u64_to_le_bytes(value);
    append_bytes(out, bytes.as_slice());
}

/// Reads the number that stands at place `at`, and gives the place behind it.
pub fn read_u64(data: &Vec<u8>, at: usize) -> (read: Option<(u64, usize)>)
    requires
        at <= data.len(),
    ensures
        match read {
            Some((value, next)) => at <= next <= data.len() && parse_u64(tail(data@, at as int))
                == Some((value, tail(data@, next as int))),
            None => parse_u64(tail(data@, at as int)) is None,
        },
{
    if data.len() - at < 8 {
        return None;
    }
    proof {
        lemma_tail(data@, at as int, 8);
    }
    let part = slice_subrange(data.as_slice(), at, at + 8);
    let value = u64_from_le_bytes(part);
    Some((value, at + 8))
}

/// The distance of a signed number from the least one that sixty-four bits hold.
pub open spec fn shifted_i64(value: i64) -> u64 {
    (value - i64::MIN) as u64
}

/// A signed number is written as its distance from the least one.
pub open spec fn wire_i64(value: i64) -> Seq<u8> {
    wire_u64(shifted_i64(value))
}

/// Reads a signed number off the front.
pub open spec fn parse_i64(bytes: Seq<u8>) -> Option<(i64, Seq<u8>)> {
    match parse_u64(bytes) {
        Some((shifted, rest)) => Some(((shifted + i64::MIN) as i64, rest)),
        None => None,
    }
}

/// A signed number that was written is read back.
pub proof fn lemma_i64_round_trip(value: i64, rest: Seq<u8>)
    ensures
        parse_i64(wire_i64(value) + rest) == Some((value, rest)),
{
    lemma_u64_round_trip(shifted_i64(value), rest);
}

/// Writes a signed number behind what `out` holds.
pub fn write_i64(value: i64, out: &mut Vec<u8>)
    ensures
        final(out)@ == old(out)@ + wire_i64(value),
{
    let shifted: u64 = if value < 0 {
        (value - i64::MIN) as u64
    } else {
        (value as u64) + 0x8000_0000_0000_0000u64
    };
    write_u64(shifted, out);
}

/// Reads the signed number that stands at place `at`, and gives the place behind it.
pub fn read_i64(data: &Vec<u8>, at: usize) -> (read: Option<(i64, usize)>)
    requires
        at <= data.len(),
    ensures
        match read {
            Some((value, next)) => at <= next <= data.len() && parse_i64(tail(data@, at as int))
                == Some((value, tail(data@, next as int))),
            None => parse_i64(tail(data@, at as int)) is None,
        },
{
    match read_u64(data, at) {
        Some((shifted, next)) => {
            let value: i64 = if shifted >= 0x8000_0000_0000_0000u64 {
                (shifted - 0x8000_0000_0000_0000u64) as i64
            } else {
                (shifted as i64) + i64::MIN
            };
            Some((value, next))
        },
        None => None,
    }
}

/// A signed number of thirty-two bits is written as its distance from the least one.
pub open spec fn wire_i32(value: i32) -> Seq<u8> {
    wire_u64((value - i32::MIN) as u64)
}

/// Reads a signed number of thirty-two bits off the front. A distance that no such number
/// has is refused.
pub open spec fn parse_i32(bytes: Seq<u8>) -> Option<(i32, Seq<u8>)> {
    match parse_u64(bytes) {
        Some((shifted, rest)) => if shifted <= u32::MAX {
            Some(((shifted + i32::MIN) as i32, rest))
        } else {
            None
        },
        None => None,
    }
}

/// A signed number of thirty-two bits that was written is read back.
pub proof fn lemma_i32_round_trip(value: i32, rest: Seq<u8>)
    ensures
        parse_i32(wire_i32(value) + rest) == Some((value, rest)),
{
    lemma_u64_round_trip((value - i32::MIN) as u64, rest);
}

/// Writes a signed number of thirty-two bits behind what `out` holds.
pub fn write_i32(value: i32, out: &mut Vec<u8>)
    ensures
        final(out)@ == old(out)@ + wire_i32(value),
{
    let wide: i64 = value as i64;
    let shifted: u64 = (wide + 0x8000_0000i64) as u64;
    write_u64(shifted, out);
}

/// Reads the signed number of thirty-two bits that stands at place `at`.
pub fn read_i32(data: &Vec<u8>, at: usize) -> (read: Option<(i32, usize)>)
    requires
        at <= data.len(),
    ensures
        match read {
            Some((value, next)) => at <= next <= data.len() && parse_i32(tail(data@, at as int))
                == Some((value, tail(data@, next as int))),
            None => parse_i32(tail(data@, at as int)) is None,
        },
{
    match read_u64(data, at) {
        Some((shifted, next)) => {
            if shifted <= 0xffff_ffffu64 {
                let wide: i64 = (shifted as i64) - 0x8000_0000i64;
                Some((wide as i32, next))
            } else {
                None
            }
        },
        None => None,
    }
}

/// A number of thirty-two bits is written as a number.
pub open spec fn wire_u32(value: u32) -> Seq<u8> {
    wire_u64(value as u64)
}

/// Reads a number of thirty-two bits off the front. A greater number is refused.
pub open spec fn parse_u32(bytes: Seq<u8>) -> Option<(u32, Seq<u8>)> {
    match parse_u64(bytes) {
        Some((value, rest)) => if value <= u32::MAX {
            Some((value as u32, rest))
        } else {
            None
        },
        None => None,
    }
}

/// A number of thirty-two bits that was written is read back.
pub proof fn lemma_u32_round_trip(value: u32, rest: Seq<u8>)
    ensures
        parse_u32(wire_u32(value) + rest) == Some((value, rest)),
{
    lemma_u64_round_trip(value as u64, rest);
}

/// Writes a number of thirty-two bits behind what `out` holds.
pub fn write_u32(value: u32, out: &mut Vec<u8>)
    ensures
        final(out)@ == old(out)@ + wire_u32(value),
{
    write_u64(value as u64, out);
}

/// Reads the number of thirty-two bits that stands at place `at`.
pub fn read_u32(data: &Vec<u8>, at: usize) -> (read: Option<(u32, usize)>)
    requires
        at <= data.len(),
    ensures
        match read {
            Some((value, next)) => at <= next <= data.len() && parse_u32(tail(data@, at as int))
                == Some((value, tail(data@, next as int))),
            None => parse_u32(tail(data@, at as int)) is None,
        },
{
    match read_u64(data, at) {
        Some((value, next)) => {
            if value <= 0xffff_ffffu64 {
                Some((value as u32, next))
            } else {
                None
            }
        },
        None => None,
    }
}

/// A flag is written as one byte: one where it is set, zero where it is not.
pub open spec fn wire_bool(value: bool) -> Seq<u8> {
    seq![if value { 1u8 } else { 0u8 }]
}

/// Reads a flag off the front. A byte other than zero and one is refused.
pub open spec fn parse_bool(bytes: Seq<u8>) -> Option<(bool, Seq<u8>)> {
    if bytes.len() >= 1 && bytes[0] <= 1 {
        Some((bytes[0] == 1, tail(bytes, 1)))
    } else {
        None
    }
}

/// A flag that was written is read back.
pub proof fn lemma_bool_round_trip(value: bool, rest: Seq<u8>)
    ensures
        parse_bool(wire_bool(value) + rest) == Some((value, rest)),
{
    assert(tail(wire_bool(value) + rest, 1) =~= rest);
}

/// Writes a flag behind what `out` holds.
pub fn write_bool(value: bool, out: &mut Vec<u8>)
    ensures
        final(out)@ == old(out)@ + wire_bool(value),
{
    out.push(if value { 1u8 } else { 0u8 });
    assert(out@ =~= old(out)@ + wire_bool(value));
}

/// Reads the flag that stands at place `at`.
pub fn read_bool(data: &Vec<u8>, at: usize) -> (read: Option<(bool, usize)>)
    requires
        at <= data.len(),
    ensures
        match read {
            Some((value, next)) => at <= next <= data.len() && parse_bool(tail(data@, at as int))
                == Some((value, tail(data@, next as int))),
            None => parse_bool(tail(data@, at as int)) is None,
        },
{
    if at < data.len() {
        proof {
            lemma_tail(data@, at as int, 1);
        }
        let byte = data[at];
        assert(tail(data@, at as int)[0] == byte);
        if byte <= 1 {
            Some((byte == 1, at + 1))
        } else {
            None
        }
    } else {
        None
    }
}

/// An access level is written as a flag that is set for a public directory.
pub open spec fn wire_access(value: AccessLevel) -> Seq<u8> {
    wire_bool(value == AccessLevel::Public)
}

/// Reads an access level off the front.
pub open spec fn parse_access(bytes: Seq<u8>) -> Option<(AccessLevel, Seq<u8>)> {
    match parse_bool(bytes) {
        Some((public, rest)) => Some(
            (
                if public {
                    AccessLevel::Public
                } else {
                    AccessLevel::Private
                },
                rest,
            ),
        ),
        None => None,
    }
}

/// A byte string is written as its length and then its bytes.
pub open spec fn wire_bytes(value: Seq<u8>) -> Seq<u8> {
    wire_u64(value.len() as u64) + value
}

/// Reads a byte string off the front. A length that reaches beyond the end is refused.
#[verifier::opaque]
pub open spec fn parse_bytes(bytes: Seq<u8>) -> Option<(Seq<u8>, Seq<u8>)> {
    match parse_u64(bytes) {
        Some((len, rest)) => if len <= rest.len() {
            Some((rest.subrange(0, len as int), tail(rest, len as int)))
        } else {
            None
        },
        None => None,
    }
}

/// A byte string that was written is read back.
pub proof fn lemma_bytes_round_trip(value: Seq<u8>, rest: Seq<u8>)
    requires
        value.len() <= u64::MAX,
    ensures
        parse_bytes(wire_bytes(value) + rest) == Some((value, rest)),
{
    reveal(parse_bytes);
    lemma_u64_round_trip(value.len() as u64, value + rest);
    assert(wire_bytes(value) + rest =~= wire_u64(value.len() as u64) + (value + rest));
    assert((value + rest).subrange(0, value.len() as int) =~= value);
    assert(tail(value + rest, value.len() as int) =~= rest);
}

/// Writes a byte string behind what `out` holds.
pub fn write_bytes(value: &[u8], out: &mut Vec<u8>)
    ensures
        final(out)@ == old(out)@ + wire_bytes(value@),
        value@.len() <= u64::MAX,
{
    write_u64(value.len() as u64, out);
    append_bytes(out, value);
    assert(out@ =~= old(out)@ + wire_bytes(value@));
}

/// Reads the byte string that stands at place `at`.
pub fn read_bytes(data: &Vec<u8>, at: usize) -> (read: Option<(Vec<u8>, usize)>)
    requires
        at <= data.len(),
    ensures
        match read {
            Some((value, next)) => at <= next <= data.len() && parse_bytes(tail(data@, at as int))
                == Some((value@, tail(data@, next as int))),
            None => parse_bytes(tail(data@, at as int)) is None,
        },
{
    proof {
        reveal(parse_bytes);
    }
    match read_u64(data, at) {
        Some((len, start)) => {
            if len <= (data.len() - start) as u64 {
                let end = start + len as usize;
                proof {
                    lemma_tail(data@, start as int, len as int);
                }
                Some((copy_range(data, start, end), end))
            } else {
                proof {
                    lemma_tail(data@, start as int, 0);
                }
                None
            }
        },
        None => None,
    }
}

/// Text is written as the byte string of its UTF-8 form.
pub open spec fn wire_text(value: Seq<char>) -> Seq<u8> {
    wire_bytes(encode_utf8(value))
}

/// Reads text off the front. A byte string that is not UTF-8 is refused.
#[verifier::opaque]
pub open spec fn parse_text(bytes: Seq<u8>) -> Option<(Seq<char>, Seq<u8>)> {
    match parse_bytes(bytes) {
        Some((utf8, rest)) => if valid_utf8(utf8) {
            Some((decode_utf8(utf8), rest))
        } else {
            None
        },
        None => None,
    }
}

/// Text that was written is read back.
pub proof fn lemma_text_round_trip(value: Seq<char>, rest: Seq<u8>)
    requires
        encode_utf8(value).len() <= u64::MAX,
    ensures
        parse_text(wire_text(value) + rest) == Some((value, rest)),
{
    reveal(parse_text);
    lemma_bytes_round_trip(encode_utf8(value), rest);
    encode_utf8_valid_utf8(value);
    encode_utf8_decode_utf8(value);
}

/// Writes text behind what `out` holds.
pub fn write_text(value: &String, out: &mut Vec<u8>)
    ensures
        final(out)@ == old(out)@ + wire_text(value@),
        encode_utf8(value@).len() <= u64::MAX,
{
    write_bytes(value.as_str().as_bytes(), out);
}

/// Reads the text that stands at place `at`.
pub fn read_text(data: &Vec<u8>, at: usize) -> (read: Option<(String, usize)>)
    requires
        at <= data.len(),
    ensures
        match read {
            Some((value, next)) => at <= next <= data.len() && parse_text(tail(data@, at as int))
                == Some((value@, tail(data@, next as int))),
            None => parse_text(tail(data@, at as int)) is None,
        },
{
    proof {
        reveal(parse_text);
    }
    match read_bytes(data, at) {
        Some((utf8, next)) => match text_from_utf8(utf8) {
            Some(text) => Some((text, next)),
            None => None,
        },
        None => None,
    }
}

/// `String::from_utf8` of std: gives the text that the bytes are the UTF-8 form of, and an
/// error where they are no UTF-8. The contract says this over vstd's account of UTF-8.
#[verifier::external_body]
pub(crate) fn text_from_utf8(bytes: Vec<u8>) -> (text: Option<String>)
    ensures
        match text {
            Some(text) => valid_utf8(bytes@) && text@ == decode_utf8(bytes@),
            None => !valid_utf8(bytes@),
        },
{
    String::from_utf8(bytes).ok()
}

/// A name is written as its bytes.
pub open spec fn wire_name(value: NetworkName) -> Seq<u8> {
    value@
}

/// Reads a name off the front.
#[verifier::opaque]
pub open spec fn parse_name(bytes: Seq<u8>) -> Option<(NetworkName, Seq<u8>)> {
    if bytes.len() >= NAME_LEN && exists|name: NetworkName|
        name@ == bytes.subrange(0, NAME_LEN as int) {
        Some(
            (
                choose|name: NetworkName| name@ == bytes.subrange(0, NAME_LEN as int),
                tail(bytes, NAME_LEN as int),
            ),
        )
    } else {
        None
    }
}

/// A name that was written is read back.
pub proof fn lemma_name_round_trip(value: NetworkName, rest: Seq<u8>)
    ensures
        parse_name(wire_name(value) + rest) == Some((value, rest)),
{
    reveal(parse_name);
    let bytes = wire_name(value) + rest;
    lemma_name_view(value, value);
    assert(bytes.subrange(0, NAME_LEN as int) =~= value@);
    assert(tail(bytes, NAME_LEN as int) =~= rest);
    assert(exists|name: NetworkName| name@ == bytes.subrange(0, NAME_LEN as int));
    let parsed = parse_name(bytes);
    assert(parsed->Some_0.0@ == value@);
    lemma_name_view(parsed->Some_0.0, value);
}

/// Writes a name behind what `out` holds.
pub fn write_name(value: &NetworkName, out: &mut Vec<u8>)
    ensures
        final(out)@ == old(out)@ + wire_name(*value),
{
    let bytes = value.get_bytes();
    let mut i: usize = 0;
    proof {
        lemma_name_view(*value, *value);
    }
    while i < 64
        invariant
            0 <= i <= 64,
            bytes@ == value@,
            bytes@.len() == 64,
            out@ == old(out)@ + value@.subrange(0, i as int),
        decreases 64 - i,
    {
        out.push(bytes[i]);
        assert(out@ =~= old(out)@ + value@.subrange(0, i + 1));
        i += 1;
    }
    assert(out@ =~= old(out)@ + value@);
}

/// Reads the name that stands at place `at`.
pub fn read_name(data: &Vec<u8>, at: usize) -> (read: Option<(NetworkName, usize)>)
    requires
        at <= data.len(),
    ensures
        match read {
            Some((value, next)) => at <= next <= data.len() && parse_name(tail(data@, at as int))
                == Some((value, tail(data@, next as int))),
            None => parse_name(tail(data@, at as int)) is None,
        },
{
    proof {
        reveal(parse_name);
    }
    if data.len() - at < 64 {
        return None;
    }
    let mut bytes = [0u8; 64];
    let mut i: usize = 0;
    while i < 64
        invariant
            0 <= i <= 64,
            at + 64 <= data.len(),
            forall|j: int| 0 <= j < i ==> bytes@[j] == data@[at + j],
        decreases 64 - i,
    {
        bytes[i] = data[at + i];
        i += 1;
    }
    let name = NetworkName::new(bytes);
    proof {
        lemma_tail(data@, at as int, 64);
        lemma_name_view(name, name);
        let front = tail(data@, at as int).subrange(0, NAME_LEN as int);
        assert(front == data@.subrange(at as int, at + 64));
        assert(name@.len() == 64);
        assert forall|j: int| 0 <= j < 64 implies name@[j] == front[j] by {
            assert(bytes@[j] == data@[at + j]);
        }
        assert(name@ =~= front);
        assert(exists|other: NetworkName| other@ == front);
        let parsed = parse_name(tail(data@, at as int));
        assert(parsed->Some_0.0@ == front);
        lemma_name_view(parsed->Some_0.0, name);
    }
    Some((name, at + 64))
}

/// A point in time is written as its seconds and then its nanoseconds.
pub open spec fn wire_time(value: Time) -> Seq<u8> {
    wire_i64(value.sec) + wire_i32(value.nsec)
}

/// Reads a point in time off the front.
#[verifier::opaque]
pub open spec fn parse_time(bytes: Seq<u8>) -> Option<(Time, Seq<u8>)> {
    match parse_i64(bytes) {
        Some((sec, rest)) => match parse_i32(rest) {
            Some((nsec, rest)) => Some((Time { sec, nsec }, rest)),
            None => None,
        },
        None => None,
    }
}

/// A point in time that was written is read back.
pub proof fn lemma_time_round_trip(value: Time, rest: Seq<u8>)
    ensures
        parse_time(wire_time(value) + rest) == Some((value, rest)),
{
    reveal(parse_time);
    lemma_i64_round_trip(value.sec, wire_i32(value.nsec) + rest);
    lemma_i32_round_trip(value.nsec, rest);
    assert(wire_time(value) + rest =~= wire_i64(value.sec) + (wire_i32(value.nsec) + rest));
}

/// Writes a point in time behind what `out` holds.
pub fn write_time(value: &Time, out: &mut Vec<u8>)
    ensures
        final(out)@ == old(out)@ + wire_time(*value),
{
    write_i64(value.sec, out);
    write_i32(value.nsec, out);
    assert(out@ =~= old(out)@ + wire_time(*value));
}

/// Reads the point in time that stands at place `at`.
pub fn read_time(data: &Vec<u8>, at: usize) -> (read: Option<(Time, usize)>)
    requires
        at <= data.len(),
    ensures
        match read {
            Some((value, next)) => at <= next <= data.len() && parse_time(tail(data@, at as int))
                == Some((value, tail(data@, next as int))),
            None => parse_time(tail(data@, at as int)) is None,
        },
{
    proof {
        reveal(parse_time);
    }
    match read_i64(data, at) {
        Some((sec, next)) => match read_i32(data, next) {
            Some((nsec, next)) => Some((Time { sec, nsec }, next)),
            None => None,
        },
        None => None,
    }
}

/// A key is written as its identifier, its tag, whether it is versioned, and its access
/// level.
pub open spec fn wire_key(value: DirectoryKey) -> Seq<u8> {
    wire_name(value.spec_id()) + wire_u64(value.spec_type_tag()) + wire_bool(
        value.spec_versioned(),
    ) + wire_access(value.spec_access_level())
}

/// Reads a key off the front.
#[verifier::opaque]
pub open spec fn parse_key(bytes: Seq<u8>) -> Option<(DirectoryKey, Seq<u8>)> {
    match parse_name(bytes) {
        Some((id, rest)) => match parse_u64(rest) {
            Some((type_tag, rest)) => match parse_bool(rest) {
                Some((versioned, rest)) => match parse_access(rest) {
                    Some((access_level, rest)) => Some(
                        (DirectoryKey::spec_new(id, type_tag, versioned, access_level), rest),
                    ),
                    None => None,
                },
                None => None,
            },
            None => None,
        },
        None => None,
    }
}

/// A key that was written is read back.
pub proof fn lemma_key_round_trip(value: DirectoryKey, rest: Seq<u8>)
    ensures
        parse_key(wire_key(value) + rest) == Some((value, rest)),
{
    reveal(parse_key);
    let a = wire_name(value.spec_id());
    let b = wire_u64(value.spec_type_tag());
    let c = wire_bool(value.spec_versioned());
    let d = wire_access(value.spec_access_level());
    lemma_name_round_trip(value.spec_id(), b + c + d + rest);
    lemma_u64_round_trip(value.spec_type_tag(), c + d + rest);
    lemma_bool_round_trip(value.spec_versioned(), d + rest);
    lemma_bool_round_trip(value.spec_access_level() == AccessLevel::Public, rest);
    assert(wire_key(value) + rest =~= a + (b + c + d + rest));
    assert(b + c + d + rest =~= b + (c + d + rest));
    assert(c + d + rest =~= c + (d + rest));
    DirectoryKey::lemma_spec_new(
        value.spec_id(),
        value.spec_type_tag(),
        value.spec_versioned(),
        value.spec_access_level(),
    );
    lemma_key_is_its_parts(
        value,
        DirectoryKey::spec_new(
            value.spec_id(),
            value.spec_type_tag(),
            value.spec_versioned(),
            value.spec_access_level(),
        ),
    );
}

/// Writes a key behind what `out` holds.
pub fn write_key(value: &DirectoryKey, out: &mut Vec<u8>)
    ensures
        final(out)@ == old(out)@ + wire_key(*value),
{
    write_name(value.get_id(), out);
    write_u64(value.get_type_tag(), out);
    write_bool(value.is_versioned(), out);
    write_bool(
        match value.get_access_level() {
            AccessLevel::Public => true,
            AccessLevel::Private => false,
        },
        out,
    );
    assert(out@ =~= old(out)@ + wire_key(*value));
}

/// Reads the key that stands at place `at`.
pub fn read_key(data: &Vec<u8>, at: usize) -> (read: Option<(DirectoryKey, usize)>)
    requires
        at <= data.len(),
    ensures
        match read {
            Some((value, next)) => at <= next <= data.len() && parse_key(tail(data@, at as int))
                == Some((value, tail(data@, next as int))),
            None => parse_key(tail(data@, at as int)) is None,
        },
{
    proof {
        reveal(parse_key);
    }
    let (id, next) = match read_name(data, at) {
        Some(read) => read,
        None => { return None; },
    };
    let (type_tag, next) = match read_u64(data, next) {
        Some(read) => read,
        None => { return None; },
    };
    let (versioned, next) = match read_bool(data, next) {
        Some(read) => read,
        None => { return None; },
    };
    let (public, next) = match read_bool(data, next) {
        Some(read) => read,
        None => { return None; },
    };
    let access_level = if public {
        AccessLevel::Public
    } else {
        AccessLevel::Private
    };
    let key = DirectoryKey::new(id, type_tag, versioned, access_level);
    proof {
        DirectoryKey::lemma_spec_new(id, type_tag, versioned, access_level);
        lemma_key_is_its_parts(key, DirectoryKey::spec_new(id, type_tag, versioned, access_level));
    }
    Some((key, next))
}

/// A key that may be absent is written as a flag that says whether it is there, and then
/// the key where it is.
pub open spec fn wire_optional_key(value: Option<DirectoryKey>) -> Seq<u8> {
    match value {
        Some(key) => wire_bool(true) + wire_key(key),
        None => wire_bool(false),
    }
}

/// Reads a key that may be absent off the front.
#[verifier::opaque]
pub open spec fn parse_optional_key(bytes: Seq<u8>) -> Option<(Option<DirectoryKey>, Seq<u8>)> {
    match parse_bool(bytes) {
        Some((present, rest)) => if present {
            match parse_key(rest) {
                Some((key, rest)) => Some((Some(key), rest)),
                None => None,
            }
        } else {
            Some((None, rest))
        },
        None => None,
    }
}

/// A key that may be absent and was written is read back.
pub proof fn lemma_optional_key_round_trip(value: Option<DirectoryKey>, rest: Seq<u8>)
    ensures
        parse_optional_key(wire_optional_key(value) + rest) == Some((value, rest)),
{
    reveal(parse_optional_key);
    match value {
        Some(key) => {
            lemma_bool_round_trip(true, wire_key(key) + rest);
            lemma_key_round_trip(key, rest);
            assert(wire_optional_key(value) + rest =~= wire_bool(true) + (wire_key(key) + rest));
        },
        None => {
            lemma_bool_round_trip(false, rest);
        },
    }
}

/// Writes a key that may be absent behind what `out` holds.
pub fn write_optional_key(value: Option<&DirectoryKey>, out: &mut Vec<u8>)
    ensures
        final(out)@ == old(out)@ + wire_optional_key(
            match value {
                Some(key) => Some(*key),
                None => None,
            },
        ),
{
    match value {
        Some(key) => {
            write_bool(true, out);
            write_key(key, out);
            assert(out@ =~= old(out)@ + (wire_bool(true) + wire_key(*key)));
        },
        None => {
            write_bool(false, out);
        },
    }
}

/// Reads the key that may be absent and stands at place `at`.
pub fn read_optional_key(data: &Vec<u8>, at: usize) -> (read: Option<
    (Option<DirectoryKey>, usize),
>)
    requires
        at <= data.len(),
    ensures
        match read {
            Some((value, next)) => at <= next <= data.len() && parse_optional_key(
                tail(data@, at as int),
            ) == Some((value, tail(data@, next as int))),
            None => parse_optional_key(tail(data@, at as int)) is None,
        },
{
    proof {
        reveal(parse_optional_key);
    }
    match read_bool(data, at) {
        Some((present, next)) => {
            if present {
                match read_key(data, next) {
                    Some((key, next)) => Some((Some(key), next)),
                    None => None,
                }
            } else {
                Some((None, next))
            }
        },
        None => None,
    }
}

} // verus!
