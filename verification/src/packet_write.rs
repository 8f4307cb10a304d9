//! Writing the wire format: every operation appends to the end of a buffer.

use vstd::prelude::*;
use vstd::utf8::encode_utf8;
use crate::varint::{encode_varint, lemma_unsigned_fits, unsigned_value, varint_encoding};

verus! {

/// The byte that stands for a signed 8-bit integer (two's complement).
pub open spec fn unsigned8(v: i8) -> u8 {
    if v >= 0 {
        v as u8
    } else {
        (v + 0x100) as u8
    }
}

/// A signed 16-bit integer read as unsigned (two's complement).
pub open spec fn unsigned16(v: i16) -> u16 {
    if v >= 0 {
        v as u16
    } else {
        (v + 0x1_0000) as u16
    }
}

/// A signed 64-bit integer read as unsigned (two's complement).
pub open spec fn unsigned64(v: i64) -> u64 {
    if v >= 0 {
        v as u64
    } else {
        (v + 0x1_0000_0000_0000_0000) as u64
    }
}

/// The two bytes of `v`, high byte first.
pub open spec fn u16_bytes(v: u16) -> Seq<u8> {
    seq![(v / 0x100) as u8, (v % 0x100) as u8]
}

/// The eight bytes of `v`, high byte first.
pub open spec fn u64_bytes(v: u64) -> Seq<u8> {
    seq![
        (v / 0x100_0000_0000_0000) as u8,
        (v / 0x1_0000_0000_0000 % 0x100) as u8,
        (v / 0x100_0000_0000 % 0x100) as u8,
        (v / 0x1_0000_0000 % 0x100) as u8,
        (v / 0x100_0000 % 0x100) as u8,
        (v / 0x1_0000 % 0x100) as u8,
        (v / 0x100 % 0x100) as u8,
        (v % 0x100) as u8,
    ]
}

/// A string on the wire: the length of its UTF-8 form, then that form.
pub open spec fn string_encoding(s: Seq<char>) -> Seq<u8> {
    varint_encoding(encode_utf8(s).len()) + encode_utf8(s)
}

/// The length that a frame declares: the bytes of its id and of its payload.
pub open spec fn frame_length(pid: i32, payload: Seq<u8>) -> nat {
    varint_encoding(unsigned_value(pid)).len() + payload.len()
}

/// A frame: the declared length, the packet id, the payload.
pub open spec fn packet_bytes(pid: i32, payload: Seq<u8>) -> Seq<u8> {
    varint_encoding(frame_length(pid, payload)) + varint_encoding(unsigned_value(pid)) + payload
}

/// The longest payload that `create_packet` frames: with the id's bytes the
/// declared length still fits a signed 32-bit integer.
pub const MAX_PAYLOAD: usize = 0x7fff_fff0;

/// The longest UTF-8 form that `write_string` takes.
pub const MAX_STRING_BYTES: usize = 0x7fff_ffff;

/// Appends `src` to `buf`.
pub fn extend_bytes(buf: &mut Vec<u8>, src: &[u8])
    ensures
        final(buf)@ == old(buf)@ + src@,
{
    let mut i: usize = 0;
    while i < src.len()
        invariant
            i <= src.len(),
            buf@ == old(buf)@ + src@.subrange(0, i as int),
        decreases src.len() - i,
    {
        let ghost before = buf@;
        buf.push(src[i]);
        i += 1;
        proof {
            assert(before.push(src@[i - 1]) =~= old(buf)@ + src@.subrange(0, i as int));
        }
    }
    proof {
        assert(src@.subrange(0, src@.len() as int) =~= src@);
    }
}

fn to_unsigned16(value: i16) -> (r: u16)
    ensures
        r == unsigned16(value),
{
    if value >= 0 {
        value as u16
    } else {
        let low: i16 = value + 32767 + 1;
        low as u16 + 32768u16
    }
}

fn to_unsigned64(value: i64) -> (r: u64)
    ensures
        r == unsigned64(value),
{
    if value >= 0 {
        value as u64
    } else {
        let low: i64 = value + 0x7fff_ffff_ffff_ffff + 1;
        low as u64 + 0x8000_0000_0000_0000u64
    }
}

/// A buffer that packets are written to.
pub trait PacketWriter {
    /// The bytes written so far.
    spec fn written(&self) -> Seq<u8>;

    /// Appends one byte.
    fn write_u8(&mut self, value: u8)
        ensures
            final(self).written() == old(self).written().push(value),
    ;

    /// Appends a signed byte.
    fn write_i8(&mut self, value: i8)
        ensures
            final(self).written() == old(self).written().push(unsigned8(value)),
    ;

    /// Appends two bytes, high byte first.
    fn write_u16(&mut self, value: u16)
        ensures
            final(self).written() == old(self).written() + u16_bytes(value),
    ;

    /// Appends a signed integer of two bytes, high byte first.
    fn write_i16(&mut self, value: i16)
        ensures
            final(self).written() == old(self).written() + u16_bytes(unsigned16(value)),
    ;

    /// Appends a variable-length integer: `value` read as unsigned, seven
    /// bits to a byte, low group first, one to five bytes.
    fn write_varint(&mut self, value: i32)
        ensures
            final(self).written() == old(self).written() + varint_encoding(unsigned_value(value)),
    ;

    /// Appends a signed integer of eight bytes, high byte first.
    fn write_i64(&mut self, value: i64)
        ensures
            final(self).written() == old(self).written() + u64_bytes(unsigned64(value)),
    ;

    /// Appends `bytes` as they are.
    fn write_vec_bytes(&mut self, bytes: Vec<u8>)
        ensures
            final(self).written() == old(self).written() + bytes@,
    ;

    /// Appends a string: the length of its UTF-8 form, then that form.
    fn write_string(&mut self, value: String)
        requires
            encode_utf8(value@).len() <= MAX_STRING_BYTES,
        ensures
            final(self).written() == old(self).written() + string_encoding(value@),
    ;

    /// Frames what was written as the payload of packet `pid`. The buffer
    /// itself stays as it is.
    fn create_packet(&mut self, pid: i32) -> (packet: Vec<u8>)
        requires
            old(self).written().len() <= MAX_PAYLOAD,
        ensures
            final(self).written() == old(self).written(),
            packet@ == packet_bytes(pid, old(self).written()),
    ;
}

impl PacketWriter for Vec<u8> {
    open spec fn written(&self) -> Seq<u8> {
        self@
    }

    fn write_u8(&mut self, value: u8) {
        self.push(value);
    }

    fn write_i8(&mut self, value: i8) {
        if value >= 0 {
            self.push(value as u8);
        } else {
            let wide: i16 = value as i16 + 256;
            self.push(wide as u8);
        }
    }

    fn write_u16(&mut self, value: u16) {
        let ghost before = self@;
        self.push((value / 0x100) as u8);
        self.push((value % 0x100) as u8);
        proof {
            assert(self@ =~= before + u16_bytes(value));
        }
    }

    fn write_i16(&mut self, value: i16) {
        let raw: u16 = to_unsigned16(value);
        self.write_u16(raw);
    }

    fn write_varint(&mut self, value: i32) {
        encode_varint(self, value);
    }

    fn write_i64(&mut self, value: i64) {
        let ghost before = self@;
        let raw: u64 = to_unsigned64(value);
        self.push((raw / 0x100_0000_0000_0000) as u8);
        self.push((raw / 0x1_0000_0000_0000 % 0x100) as u8);
        self.push((raw / 0x100_0000_0000 % 0x100) as u8);
        self.push((raw / 0x1_0000_0000 % 0x100) as u8);
        self.push((raw / 0x100_0000 % 0x100) as u8);
        self.push((raw / 0x1_0000 % 0x100) as u8);
        self.push((raw / 0x100 % 0x100) as u8);
        self.push((raw % 0x100) as u8);
        proof {
            assert(self@ =~= before + u64_bytes(raw));
        }
    }

    fn write_vec_bytes(&mut self, bytes: Vec<u8>) {
        extend_bytes(self, bytes.as_slice());
    }

    fn write_string(&mut self, value: String) {
        let ghost before = self@;
        let bytes: &[u8] = value.as_str().as_bytes();
        let len: usize = bytes.len();
        encode_varint(self, len as i32);
        extend_bytes(self, bytes);
        proof {
            assert(self@ =~= before + string_encoding(value@));
        }
    }

    fn create_packet(&mut self, pid: i32) -> (packet: Vec<u8>) {
        let mut packet: Vec<u8> = Vec::new();
        let mut id_bytes: Vec<u8> = Vec::new();
        encode_varint(&mut id_bytes, pid);
        proof {
            lemma_unsigned_fits(pid);
            assert(id_bytes@ =~= varint_encoding(unsigned_value(pid)));
        }
        let total: usize = self.len() + id_bytes.len();
        encode_varint(&mut packet, total as i32);
        extend_bytes(&mut packet, id_bytes.as_slice());
        extend_bytes(&mut packet, self.as_slice());
        proof {
            assert(packet@ =~= packet_bytes(pid, self@));
        }
        packet
    }
}

} // verus!
