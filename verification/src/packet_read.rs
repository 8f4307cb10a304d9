//! Reading the wire format: every operation takes its bytes from the front
//! of a buffer, after it has checked that they are all there. A read that
//! fails leaves the buffer as it was.

use vstd::prelude::*;
use vstd::utf8::{decode_utf8, valid_utf8};
use crate::error::{ErrorKind, SimpleError, SResult};
use crate::varint::{parse_varint, varint_decoding, lemma_decoding_bounds, lemma_capacity_values, VARINT_MAX_BYTES};

verus! {

/// The signed 8-bit integer that a byte stands for (two's complement).
pub open spec fn signed8(b: u8) -> i8 {
    if b < 0x80 {
        b as i8
    } else {
        (b - 0x100) as i8
    }
}

/// The signed 16-bit integer that `u` stands for (two's complement).
pub open spec fn signed16(u: u16) -> i16 {
    if u < 0x8000 {
        u as i16
    } else {
        (u - 0x1_0000) as i16
    }
}

/// The signed 64-bit integer that `u` stands for (two's complement).
pub open spec fn signed64(u: u64) -> i64 {
    if u < 0x8000_0000_0000_0000 {
        u as i64
    } else {
        (u - 0x1_0000_0000_0000_0000) as i64
    }
}

/// The first two bytes of `b` as one number, high byte first.
pub open spec fn be_u16(b: Seq<u8>) -> u16 {
    (b[0] * 0x100 + b[1]) as u16
}

/// The first eight bytes of `b` as one number, high byte first.
pub open spec fn be_u64(b: Seq<u8>) -> u64 {
    (b[0] * 0x100_0000_0000_0000 + b[1] * 0x1_0000_0000_0000 + b[2] * 0x100_0000_0000 + b[3]
        * 0x1_0000_0000 + b[4] * 0x100_0000 + b[5] * 0x1_0000 + b[6] * 0x100 + b[7]) as u64
}

/// What a variable-length integer at the front of `b` decodes to.
pub open spec fn front_varint(b: Seq<u8>) -> Result<(nat, nat), ErrorKind> {
    varint_decoding(b, VARINT_MAX_BYTES as nat)
}

/// What a string at the front of `b` decodes to: its characters and the
/// number of bytes it takes, length prefix included.
pub open spec fn string_decoding(b: Seq<u8>) -> Result<(Seq<char>, nat), ErrorKind> {
    match front_varint(b) {
        Err(kind) => Err(kind),
        Ok((len, count)) => {
            if b.len() - count < len {
                Err(ErrorKind::Truncated)
            } else if !valid_utf8(b.subrange(count as int, (count + len) as int)) {
                Err(ErrorKind::InvalidUtf8)
            } else {
                Ok((decode_utf8(b.subrange(count as int, (count + len) as int)), count + len))
            }
        },
    }
}

/// What the head of a frame at the front of `b` decodes to: the declared
/// length, the packet id, and the number of bytes the two take.
pub open spec fn base_decoding(b: Seq<u8>) -> Result<(nat, nat, nat), ErrorKind> {
    match front_varint(b) {
        Err(kind) => Err(kind),
        Ok((len, count)) => match front_varint(b.skip(count as int)) {
            Err(kind) => Err(kind),
            Ok((pid, more)) => Ok((len, pid, count + more)),
        },
    }
}

/// An integer at the front of a buffer is below 2 to the power 28 and takes
/// one to four of the buffer's bytes; and to skip nothing leaves the buffer
/// as it is.
pub proof fn lemma_front_varint(b: Seq<u8>)
    ensures
        b.skip(0) == b,
        match front_varint(b) {
            Ok((value, count)) => value < 268435456 && 1 <= count <= VARINT_MAX_BYTES && count
                <= b.len(),
            Err(_) => true,
        },
{
    lemma_decoding_bounds(b, VARINT_MAX_BYTES as nat);
    lemma_capacity_values();
    assert(b.skip(0) =~= b);
}

/// `String::from_utf8` of std: the bytes become a string exactly when they
/// are valid UTF-8, and the string then holds the characters they encode.
#[verifier::external_body]
fn string_from_utf8(bytes: Vec<u8>) -> (r: Option<String>)
    ensures
        r is Some <==> valid_utf8(bytes@),
        r matches Some(s) ==> s@ == decode_utf8(bytes@),
{
    String::from_utf8(bytes).ok()
}

/// Removes the first `count` bytes of `buf`.
pub fn consume(buf: &mut Vec<u8>, count: usize)
    requires
        count <= old(buf).len(),
    ensures
        final(buf)@ == old(buf)@.skip(count as int),
{
    let rest: Vec<u8> = buf.split_off(count);
    proof {
        assert(rest@ =~= old(buf)@.skip(count as int));
    }
    *buf = rest;
}

/// A copy of the bytes of `buf` from `from` up to `to`.
pub fn copy_range(buf: &Vec<u8>, from: usize, to: usize) -> (r: Vec<u8>)
    requires
        from <= to <= buf.len(),
    ensures
        r@ == buf@.subrange(from as int, to as int),
{
    let mut r: Vec<u8> = Vec::new();
    let mut i: usize = from;
    while i < to
        invariant
            from <= i <= to <= buf.len(),
            r@ == buf@.subrange(from as int, i as int),
        decreases to - i,
    {
        let ghost before = r@;
        r.push(buf[i]);
        i += 1;
        proof {
            assert(before.push(buf@[i - 1]) =~= buf@.subrange(from as int, i as int));
        }
    }
    r
}

/// A buffer that packets are read from.
pub trait PacketReader {
    /// The bytes not yet read.
    spec fn bytes(&self) -> Seq<u8>;

    /// Takes one byte.
    fn get_u8(&mut self) -> (r: SResult<u8>)
        ensures
            old(self).bytes().len() >= 1 ==> r == Ok::<u8, SimpleError>(old(self).bytes()[0])
                && final(self).bytes() == old(self).bytes().skip(1),
            old(self).bytes().len() < 1 ==> r == Err::<u8, SimpleError>(
                SimpleError { kind: ErrorKind::Truncated },
            ) && final(self).bytes() == old(self).bytes(),
    ;

    /// Takes one byte as a signed integer.
    fn get_i8(&mut self) -> (r: SResult<i8>)
        ensures
            old(self).bytes().len() >= 1 ==> r == Ok::<i8, SimpleError>(
                signed8(old(self).bytes()[0]),
            ) && final(self).bytes() == old(self).bytes().skip(1),
            old(self).bytes().len() < 1 ==> r == Err::<i8, SimpleError>(
                SimpleError { kind: ErrorKind::Truncated },
            ) && final(self).bytes() == old(self).bytes(),
    ;

    /// Takes two bytes, high byte first.
    fn get_u16(&mut self) -> (r: SResult<u16>)
        ensures
            old(self).bytes().len() >= 2 ==> r == Ok::<u16, SimpleError>(
                be_u16(old(self).bytes()),
            ) && final(self).bytes() == old(self).bytes().skip(2),
            old(self).bytes().len() < 2 ==> r == Err::<u16, SimpleError>(
                SimpleError { kind: ErrorKind::Truncated },
            ) && final(self).bytes() == old(self).bytes(),
    ;

    /// Takes two bytes as a signed integer, high byte first.
    fn get_i16(&mut self) -> (r: SResult<i16>)
        ensures
            old(self).bytes().len() >= 2 ==> r == Ok::<i16, SimpleError>(
                signed16(be_u16(old(self).bytes())),
            ) && final(self).bytes() == old(self).bytes().skip(2),
            old(self).bytes().len() < 2 ==> r == Err::<i16, SimpleError>(
                SimpleError { kind: ErrorKind::Truncated },
            ) && final(self).bytes() == old(self).bytes(),
    ;

    /// Takes a variable-length integer of at most four bytes. One that
    /// goes on past its fourth byte is refused, not cut short.
    fn get_varint(&mut self) -> (r: SResult<i32>)
        ensures
            match front_varint(old(self).bytes()) {
                Ok((value, count)) => r == Ok::<i32, SimpleError>(value as i32) && 0 <= value
                    < 268435456 && final(self).bytes() == old(self).bytes().skip(count as int),
                Err(kind) => r == Err::<i32, SimpleError>(SimpleError { kind }) && final(self).bytes() == old(self).bytes(),
            },
    ;

    /// Takes eight bytes as a signed integer, high byte first.
    fn get_i64(&mut self) -> (r: SResult<i64>)
        ensures
            old(self).bytes().len() >= 8 ==> r == Ok::<i64, SimpleError>(
                signed64(be_u64(old(self).bytes())),
            ) && final(self).bytes() == old(self).bytes().skip(8),
            old(self).bytes().len() < 8 ==> r == Err::<i64, SimpleError>(
                SimpleError { kind: ErrorKind::Truncated },
            ) && final(self).bytes() == old(self).bytes(),
    ;

    /// Takes a string: its length, then as many bytes, which must be valid
    /// UTF-8.
    fn get_string(&mut self) -> (r: SResult<String>)
        ensures
            match string_decoding(old(self).bytes()) {
                Ok((text, count)) => r is Ok && r->Ok_0@ == text && final(self).bytes() == old(self).bytes().skip(count as int),
                Err(kind) => r == Err::<String, SimpleError>(SimpleError { kind }) && final(self).bytes() == old(self).bytes(),
            },
    ;

    /// Takes the head of a frame: its declared length and its packet id.
    /// The declared length is handed back and not held against the bytes
    /// that follow: one frame to a buffer is assumed.
    fn read_base(&mut self) -> (r: SResult<(i32, i32)>)
        ensures
            match base_decoding(old(self).bytes()) {
                Ok((len, pid, count)) => r == Ok::<(i32, i32), SimpleError>(
                    (len as i32, pid as i32),
                ) && len < 268435456 && pid < 268435456 && final(self).bytes() == old(
                    self).bytes().skip(count as int),
                Err(kind) => r == Err::<(i32, i32), SimpleError>(SimpleError { kind }) && final(self).bytes() == old(self).bytes(),
            },
    ;
}

impl PacketReader for Vec<u8> {
    open spec fn bytes(&self) -> Seq<u8> {
        self@
    }

    fn get_u8(&mut self) -> (r: SResult<u8>) {
        if self.len() < 1 {
            return Err(SimpleError { kind: ErrorKind::Truncated });
        }
        let first: u8 = self[0];
        consume(self, 1);
        Ok(first)
    }

    fn get_i8(&mut self) -> (r: SResult<i8>) {
        if self.len() < 1 {
            return Err(SimpleError { kind: ErrorKind::Truncated });
        }
        let first: u8 = self[0];
        consume(self, 1);
        if first < 0x80 {
            Ok(first as i8)
        } else {
            let wide: i16 = first as i16 - 0x100;
            Ok(wide as i8)
        }
    }

    fn get_u16(&mut self) -> (r: SResult<u16>) {
        if self.len() < 2 {
            return Err(SimpleError { kind: ErrorKind::Truncated });
        }
        let value: u16 = (self[0] as u16) * 0x100 + (self[1] as u16);
        consume(self, 2);
        Ok(value)
    }

    fn get_i16(&mut self) -> (r: SResult<i16>) {
        if self.len() < 2 {
            return Err(SimpleError { kind: ErrorKind::Truncated });
        }
        let value: u16 = (self[0] as u16) * 0x100 + (self[1] as u16);
        consume(self, 2);
        if value < 0x8000 {
            Ok(value as i16)
        } else {
            let wide: i32 = value as i32 - 0x1_0000;
            Ok(wide as i16)
        }
    }

    fn get_varint(&mut self) -> (r: SResult<i32>) {
        proof {
            lemma_front_varint(self@);
        }
        match parse_varint(self, 0) {
            Ok((value, end)) => {
                consume(self, end);
                Ok(value)
            },
            Err(e) => Err(e),
        }
    }

    fn get_i64(&mut self) -> (r: SResult<i64>) {
        if self.len() < 8 {
            return Err(SimpleError { kind: ErrorKind::Truncated });
        }
        let value: u64 = (self[0] as u64) * 0x100_0000_0000_0000 + (self[1] as u64)
            * 0x1_0000_0000_0000 + (self[2] as u64) * 0x100_0000_0000 + (self[3] as u64)
            * 0x1_0000_0000 + (self[4] as u64) * 0x100_0000 + (self[5] as u64) * 0x1_0000 + (
        self[6] as u64) * 0x100 + (self[7] as u64);
        consume(self, 8);
        if value < 0x8000_0000_0000_0000 {
            Ok(value as i64)
        } else {
            let low: u64 = value - 0x8000_0000_0000_0000;
            Ok(low as i64 + (-0x7fff_ffff_ffff_ffff - 1))
        }
    }

    fn get_string(&mut self) -> (r: SResult<String>) {
        proof {
            lemma_front_varint(self@);
        }
        let (len, start) = match parse_varint(self, 0) {
            Ok(found) => found,
            Err(e) => {
                return Err(e);
            },
        };
        if self.len() - start < len as usize {
            return Err(SimpleError { kind: ErrorKind::Truncated });
        }
        let end: usize = start + len as usize;
        let body: Vec<u8> = copy_range(self, start, end);
        match string_from_utf8(body) {
            Some(text) => {
                consume(self, end);
                Ok(text)
            },
            None => Err(SimpleError { kind: ErrorKind::InvalidUtf8 }),
        }
    }

    fn read_base(&mut self) -> (r: SResult<(i32, i32)>) {
        proof {
            lemma_front_varint(self@);
        }
        let (len, start) = match parse_varint(self, 0) {
            Ok(found) => found,
            Err(e) => {
                return Err(e);
            },
        };
        proof {
            lemma_front_varint(self@.skip(start as int));
        }
        let (pid, end) = match parse_varint(self, start) {
            Ok(found) => found,
            Err(e) => {
                return Err(e);
            },
        };
        consume(self, end);
        Ok((len, pid))
    }
}

} // verus!
