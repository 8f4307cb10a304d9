//! The variable-length integer of the wire format: seven bits to a byte, low
//! group first, the high bit of a byte set while more bytes follow.

use vstd::prelude::*;
use crate::error::{ErrorKind, SimpleError, SResult};

verus! {

/// The most bytes a decoder reads for one integer.
pub const VARINT_MAX_BYTES: usize = 4;

/// A 32-bit integer read as unsigned, as the encoder takes it.
pub open spec fn unsigned_value(v: i32) -> nat {
    if v >= 0 {
        v as nat
    } else {
        (v + 0x1_0000_0000) as nat
    }
}

/// The bytes that stand for `v`.
pub open spec fn varint_encoding(v: nat) -> Seq<u8>
    decreases v,
{
    if v < 128 {
        seq![v as u8]
    } else {
        seq![(v % 128 + 128) as u8] + varint_encoding(v / 128)
    }
}

/// The number of values that `count` bytes can hold: 128 to the power `count`.
pub open spec fn capacity(count: nat) -> nat
    decreases count,
{
    if count == 0 {
        1
    } else {
        128 * capacity((count - 1) as nat)
    }
}

/// What a decoder that reads at most `limit` bytes finds at the front of
/// `bytes`: the value and the number of bytes it took, or why there is none.
pub open spec fn varint_decoding(bytes: Seq<u8>, limit: nat) -> Result<(nat, nat), ErrorKind>
    decreases limit,
{
    if limit == 0 {
        Err(ErrorKind::VarIntTooLong)
    } else if bytes.len() == 0 {
        Err(ErrorKind::Truncated)
    } else if bytes[0] < 128 {
        Ok((bytes[0] as nat, 1))
    } else {
        match varint_decoding(bytes.skip(1), (limit - 1) as nat) {
            Ok((high, count)) => Ok(((bytes[0] - 128 + 128 * high) as nat, count + 1)),
            Err(kind) => Err(kind),
        }
    }
}

/// A decoded value is below the capacity of the bytes read, and the bytes
/// read are within the limit and the buffer.
pub proof fn lemma_decoding_bounds(bytes: Seq<u8>, limit: nat)
    ensures
        match varint_decoding(bytes, limit) {
            Ok((value, count)) => value < capacity(limit) && 1 <= count <= limit && count
                <= bytes.len(),
            Err(_) => true,
        },
    decreases limit,
{
    if limit > 0 {
        lemma_capacity_positive((limit - 1) as nat);
        if bytes.len() > 0 && bytes[0] >= 128 {
            lemma_decoding_bounds(bytes.skip(1), (limit - 1) as nat);
        }
    }
}

/// No capacity is zero.
pub proof fn lemma_capacity_positive(count: nat)
    ensures
        capacity(count) >= 1,
    decreases count,
{
    if count > 0 {
        lemma_capacity_positive((count - 1) as nat);
    }
}

/// The capacities of up to four bytes, as numbers.
pub proof fn lemma_capacity_values()
    ensures
        capacity(0) == 1,
        capacity(1) == 128,
        capacity(2) == 16384,
        capacity(3) == 2097152,
        capacity(4) == 268435456,
{
    reveal_with_fuel(capacity, 5);
}

/// Every 32-bit integer fits in five bytes.
pub proof fn lemma_unsigned_fits(v: i32)
    ensures
        unsigned_value(v) < capacity(5),
        varint_encoding(unsigned_value(v)).len() <= 5,
{
    reveal_with_fuel(capacity, 6);
    lemma_encoding_length(unsigned_value(v), 5);
}

/// A length that fits a signed 32-bit integer is written in five bytes or
/// fewer.
pub proof fn lemma_length_prefix_fits(n: nat)
    requires
        n <= 0x7fff_ffff,
    ensures
        varint_encoding(n).len() <= 5,
{
    reveal_with_fuel(capacity, 6);
    lemma_encoding_length(n, 5);
}

/// Reads `value` as unsigned.
pub fn to_unsigned(value: i32) -> (r: u32)
    ensures
        r == unsigned_value(value),
{
    if value >= 0 {
        value as u32
    } else {
        let low: i32 = value + 2147483647 + 1;
        low as u32 + 2147483648u32
    }
}

/// Appends the encoding of `value` to `buf`.
pub fn encode_varint(buf: &mut Vec<u8>, value: i32)
    ensures
        final(buf)@ == old(buf)@ + varint_encoding(unsigned_value(value)),
        1 <= varint_encoding(unsigned_value(value)).len() <= 5,
{
    proof {
        lemma_unsigned_fits(value);
    }
    let mut rest: u32 = to_unsigned(value);
    while rest >= 128
        invariant
            buf@ + varint_encoding(rest as nat) == old(buf)@ + varint_encoding(
                unsigned_value(value),
            ),
        decreases rest,
    {
        let ghost before = buf@;
        let group: u8 = (rest % 128 + 128) as u8;
        buf.push(group);
        proof {
            assert(before.push(group) + varint_encoding((rest / 128) as nat) =~= before
                + varint_encoding(rest as nat));
        }
        rest = rest / 128;
    }
    let ghost before = buf@;
    buf.push(rest as u8);
    proof {
        assert(before.push(rest as u8) =~= before + varint_encoding(rest as nat));
    }
}

/// Decodes the integer that starts at `pos`, reading at most `limit` bytes.
/// Gives the value and the number of bytes read.
fn parse_varint_within(buf: &Vec<u8>, pos: usize, limit: usize) -> (r: Result<
    (u32, usize),
    ErrorKind,
>)
    requires
        pos <= buf.len(),
        limit <= VARINT_MAX_BYTES,
    ensures
        match varint_decoding(buf@.skip(pos as int), limit as nat) {
            Ok((value, count)) => r == Ok::<(u32, usize), ErrorKind>(
                (value as u32, count as usize),
            ),
            Err(kind) => r == Err::<(u32, usize), ErrorKind>(kind),
        },
    decreases limit,
{
    if limit == 0 {
        return Err(ErrorKind::VarIntTooLong);
    }
    if pos >= buf.len() {
        return Err(ErrorKind::Truncated);
    }
    let first: u8 = buf[pos];
    if first < 128 {
        return Ok((first as u32, 1));
    }
    proof {
        assert(buf@.skip(pos as int).skip(1) =~= buf@.skip(pos + 1));
        lemma_decoding_bounds(buf@.skip(pos + 1), (limit - 1) as nat);
        lemma_capacity_values();
    }
    match parse_varint_within(buf, pos + 1, limit - 1) {
        Ok((high, count)) => Ok(((first - 128) as u32 + 128 * high, count + 1)),
        Err(kind) => Err(kind),
    }
}

/// Decodes the integer that starts at `pos` in `buf`. Gives the value and
/// the position behind it.
pub fn parse_varint(buf: &Vec<u8>, pos: usize) -> (r: SResult<(i32, usize)>)
    requires
        pos <= buf.len(),
    ensures
        match varint_decoding(buf@.skip(pos as int), VARINT_MAX_BYTES as nat) {
            Ok((value, count)) => r == Ok::<(i32, usize), SimpleError>(
                (value as i32, (pos + count) as usize),
            ),
            Err(kind) => r == Err::<(i32, usize), SimpleError>(SimpleError { kind }),
        },
{
    proof {
        lemma_decoding_bounds(buf@.skip(pos as int), VARINT_MAX_BYTES as nat);
        lemma_capacity_values();
    }
    match parse_varint_within(buf, pos, VARINT_MAX_BYTES) {
        Ok((value, count)) => Ok((value as i32, pos + count)),
        Err(kind) => Err(SimpleError { kind }),
    }
}

/// An integer takes `count` bytes or fewer exactly when it is below the
/// capacity of `count` bytes; no encoding is empty.
pub proof fn lemma_encoding_length(v: nat, count: nat)
    ensures
        varint_encoding(v).len() >= 1,
        count >= 1 ==> (varint_encoding(v).len() <= count <==> v < capacity(count)),
    decreases v,
{
    if v >= 128 {
        lemma_encoding_length(v / 128, (count - 1) as nat);
        lemma_capacity_values();
    } else if count >= 1 {
        lemma_capacity_positive((count - 1) as nat);
    }
}

/// A decoder that may read as many bytes as the encoder wrote gives the
/// value back and stops behind it, whatever follows in the buffer.
pub proof fn lemma_round_trip_within(v: nat, limit: nat, rest: Seq<u8>)
    requires
        varint_encoding(v).len() <= limit,
    ensures
        varint_decoding(varint_encoding(v) + rest, limit) == Ok::<(nat, nat), ErrorKind>(
            (v, varint_encoding(v).len()),
        ),
    decreases limit,
{
    lemma_encoding_length(v, limit);
    let bytes = varint_encoding(v) + rest;
    if v >= 128 {
        lemma_encoding_length(v / 128, limit);
        assert(bytes.skip(1) =~= varint_encoding(v / 128) + rest);
        lemma_round_trip_within(v / 128, (limit - 1) as nat, rest);
    }
}

/// A decoder that may read fewer bytes than the encoder wrote refuses the
/// buffer: it never gives a part of the value.
pub proof fn lemma_too_long_within(v: nat, limit: nat, rest: Seq<u8>)
    requires
        varint_encoding(v).len() > limit,
    ensures
        varint_decoding(varint_encoding(v) + rest, limit) == Err::<(nat, nat), ErrorKind>(
            ErrorKind::VarIntTooLong,
        ),
    decreases limit,
{
    let bytes = varint_encoding(v) + rest;
    if limit > 0 {
        assert(v >= 128);
        assert(bytes.skip(1) =~= varint_encoding(v / 128) + rest);
        lemma_too_long_within(v / 128, (limit - 1) as nat, rest);
    }
}

/// Round trip: every integer whose encoding has four bytes or fewer is
/// decoded to itself, and the decoder takes exactly the bytes written.
pub proof fn law_varint_round_trip(v: i32, rest: Seq<u8>)
    requires
        varint_encoding(unsigned_value(v)).len() <= VARINT_MAX_BYTES,
    ensures
        0 <= v < 268435456,
        varint_decoding(
            varint_encoding(unsigned_value(v)) + rest,
            VARINT_MAX_BYTES as nat,
        ) == Ok::<(nat, nat), ErrorKind>((v as nat, varint_encoding(unsigned_value(v)).len())),
{
    lemma_encoding_length(unsigned_value(v), VARINT_MAX_BYTES as nat);
    lemma_capacity_values();
    lemma_round_trip_within(unsigned_value(v), VARINT_MAX_BYTES as nat, rest);
}

/// Overflow: an integer whose encoding needs a fifth byte is refused by the
/// decoder, never cut short.
pub proof fn law_varint_overflow_rejected(v: i32, rest: Seq<u8>)
    requires
        varint_encoding(unsigned_value(v)).len() > VARINT_MAX_BYTES,
    ensures
        v < 0 || v >= 268435456,
        varint_decoding(
            varint_encoding(unsigned_value(v)) + rest,
            VARINT_MAX_BYTES as nat,
        ) == Err::<(nat, nat), ErrorKind>(ErrorKind::VarIntTooLong),
{
    lemma_encoding_length(unsigned_value(v), VARINT_MAX_BYTES as nat);
    lemma_capacity_values();
    lemma_too_long_within(unsigned_value(v), VARINT_MAX_BYTES as nat, rest);
}

} // verus!
