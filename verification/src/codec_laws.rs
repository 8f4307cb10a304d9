//! What holds between the writing and the reading side of the codec.

use vstd::prelude::*;
use vstd::utf8::{encode_utf8, encode_utf8_decode_utf8, encode_utf8_valid_utf8};
use crate::error::ErrorKind;
use crate::packet_read::{
    base_decoding, be_u16, be_u64, signed16, signed64, signed8, string_decoding,
};
use crate::packet_write::{
    frame_length, packet_bytes, string_encoding, u16_bytes, u64_bytes, unsigned16, unsigned64,
    unsigned8,
};
use crate::status::{status_response_bytes, STATUS_RESPONSE_ID};
use crate::varint::{
    law_varint_round_trip, lemma_round_trip_within, unsigned_value, varint_encoding,
    VARINT_MAX_BYTES,
};

verus! {

/// String round trip: a string whose length prefix the decoder can read is
/// decoded to itself, and the decoder takes exactly the bytes written,
/// whatever follows in the buffer.
pub proof fn law_string_round_trip(s: Seq<char>, rest: Seq<u8>)
    requires
        varint_encoding(encode_utf8(s).len()).len() <= VARINT_MAX_BYTES,
    ensures
        string_decoding(string_encoding(s) + rest) == Ok::<(Seq<char>, nat), ErrorKind>(
            (s, string_encoding(s).len()),
        ),
{
    let body = encode_utf8(s);
    let prefix = varint_encoding(body.len());
    let whole = string_encoding(s) + rest;
    lemma_round_trip_within(body.len(), VARINT_MAX_BYTES as nat, body + rest);
    assert(whole =~= prefix + (body + rest));
    assert(whole.subrange(prefix.len() as int, (prefix.len() + body.len()) as int) =~= body);
    encode_utf8_valid_utf8(s);
    encode_utf8_decode_utf8(s);
}

/// The empty string is written as one byte, zero.
pub proof fn law_empty_string_encoding()
    ensures
        string_encoding(Seq::<char>::empty()) == seq![0u8],
{
    assert(encode_utf8(Seq::<char>::empty()) =~= Seq::<u8>::empty());
    assert(string_encoding(Seq::<char>::empty()) =~= seq![0u8]);
}

/// Framing: reading the head of a frame gives the length that the frame
/// declares, which is the bytes of the id plus those of the payload, and the
/// id; what is left in the buffer is the payload.
pub proof fn law_framing(pid: i32, payload: Seq<u8>)
    requires
        varint_encoding(unsigned_value(pid)).len() <= VARINT_MAX_BYTES,
        varint_encoding(frame_length(pid, payload)).len() <= VARINT_MAX_BYTES,
    ensures
        frame_length(pid, payload) == varint_encoding(unsigned_value(pid)).len() + payload.len(),
        base_decoding(packet_bytes(pid, payload)) == Ok::<(nat, nat, nat), ErrorKind>(
            (
                frame_length(pid, payload),
                pid as nat,
                varint_encoding(frame_length(pid, payload)).len() + varint_encoding(
                    unsigned_value(pid),
                ).len(),
            ),
        ),
        packet_bytes(pid, payload).skip(
            (varint_encoding(frame_length(pid, payload)).len() + varint_encoding(
                unsigned_value(pid),
            ).len()) as int,
        ) == payload,
{
    let head = varint_encoding(frame_length(pid, payload));
    let id = varint_encoding(unsigned_value(pid));
    let whole = packet_bytes(pid, payload);
    lemma_round_trip_within(frame_length(pid, payload), VARINT_MAX_BYTES as nat, id + payload);
    assert(whole =~= head + (id + payload));
    assert(whole.skip(head.len() as int) =~= id + payload);
    law_varint_round_trip(pid, payload);
    assert(whole.skip((head.len() + id.len()) as int) =~= payload);
}

/// A status response reads back as packet 0 with the report as its one
/// string and nothing behind it.
pub proof fn law_status_response_reads_back(json: Seq<char>)
    requires
        varint_encoding(encode_utf8(json).len()).len() <= VARINT_MAX_BYTES,
        varint_encoding(frame_length(STATUS_RESPONSE_ID, string_encoding(json))).len()
            <= VARINT_MAX_BYTES,
    ensures
        base_decoding(status_response_bytes(json)) matches Ok((len, pid, head)) && pid == 0 && len
            == 1 + string_encoding(json).len() && string_decoding(
            status_response_bytes(json).skip(head as int),
        ) == Ok::<(Seq<char>, nat), ErrorKind>((json, string_encoding(json).len()))
            && status_response_bytes(json).len() == head + string_encoding(json).len(),
{
    let payload = string_encoding(json);
    reveal_with_fuel(varint_encoding, 2);
    law_framing(STATUS_RESPONSE_ID, payload);
    law_string_round_trip(json, Seq::<u8>::empty());
    assert(payload + Seq::<u8>::empty() =~= payload);
}

/// Fixed-width round trip: the bytes written for an integer of 8, 16 or 64
/// bits are read back as that integer, whatever follows in the buffer.
pub proof fn law_fixed_width_round_trip(a: i8, b: u16, c: i16, d: i64, rest: Seq<u8>)
    ensures
        signed8(unsigned8(a)) == a,
        be_u16(u16_bytes(b) + rest) == b,
        signed16(be_u16(u16_bytes(unsigned16(c)) + rest)) == c,
        signed64(be_u64(u64_bytes(unsigned64(d)) + rest)) == d,
{
    lemma_u64_round_trip(unsigned64(d), rest);
}

/// A 64-bit number is the sum of its eight bytes, each at its place.
pub proof fn lemma_u64_split(v: u64)
    ensures
        v / 0x100_0000_0000_0000 < 0x100,
        (v / 0x100_0000_0000_0000) * 0x100_0000_0000_0000 + (v / 0x1_0000_0000_0000 % 0x100)
            * 0x1_0000_0000_0000 + (v / 0x100_0000_0000 % 0x100) * 0x100_0000_0000 + (v
            / 0x1_0000_0000 % 0x100) * 0x1_0000_0000 + (v / 0x100_0000 % 0x100) * 0x100_0000 + (v
            / 0x1_0000 % 0x100) * 0x1_0000 + (v / 0x100 % 0x100) * 0x100 + v % 0x100 == v,
{
    assert(v / 0x100_0000_0000_0000 < 0x100) by (bit_vector);
    assert((v / 0x100_0000_0000_0000) * 0x100_0000_0000_0000 + (v / 0x1_0000_0000_0000 % 0x100)
        * 0x1_0000_0000_0000 + (v / 0x100_0000_0000 % 0x100) * 0x100_0000_0000 + (v
        / 0x1_0000_0000 % 0x100) * 0x1_0000_0000 + (v / 0x100_0000 % 0x100) * 0x100_0000 + (v
        / 0x1_0000 % 0x100) * 0x1_0000 + (v / 0x100 % 0x100) * 0x100 + v % 0x100 == v)
        by (bit_vector);
}

/// Eight bytes written high byte first are read back as the number.
pub proof fn lemma_u64_round_trip(v: u64, rest: Seq<u8>)
    ensures
        be_u64(u64_bytes(v) + rest) == v,
{
    lemma_u64_split(v);
    let b = u64_bytes(v) + rest;
    assert(b[0] == (v / 0x100_0000_0000_0000) as u8);
    assert(b[1] == (v / 0x1_0000_0000_0000 % 0x100) as u8);
    assert(b[2] == (v / 0x100_0000_0000 % 0x100) as u8);
    assert(b[3] == (v / 0x1_0000_0000 % 0x100) as u8);
    assert(b[4] == (v / 0x100_0000 % 0x100) as u8);
    assert(b[5] == (v / 0x1_0000 % 0x100) as u8);
    assert(b[6] == (v / 0x100 % 0x100) as u8);
    assert(b[7] == (v % 0x100) as u8);
}

} // verus!
