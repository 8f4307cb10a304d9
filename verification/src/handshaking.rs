//! The handshake packet: the one packet of the first stage.

use vstd::prelude::*;
use crate::error::{ErrorKind, SimpleError, SResult};
use crate::packet_read::{base_decoding, be_u16, front_varint, string_decoding, PacketReader};

verus! {

/// The next states that a handshake may ask for.
pub open spec fn is_valid_next_state(next: nat) -> bool {
    next == 1 || next == 2
}

/// What the fields of a handshake decode to, `b` starting behind the head
/// of the frame: protocol version, server address, port, next state.
pub open spec fn handshake_fields(b: Seq<u8>) -> Result<(nat, Seq<char>, u16, nat), ErrorKind> {
    match front_varint(b) {
        Err(kind) => Err(kind),
        Ok((version, taken)) => match string_decoding(b.skip(taken as int)) {
            Err(kind) => Err(kind),
            Ok((address, more)) => {
                let tail = b.skip(taken as int).skip(more as int);
                if tail.len() < 2 {
                    Err(ErrorKind::Truncated)
                } else {
                    match front_varint(tail.skip(2)) {
                        Err(kind) => Err(kind),
                        Ok((next, _)) => Ok((version, address, be_u16(tail), next)),
                    }
                }
            },
        },
    }
}

/// What a frame asks for, before the next state is looked at. The declared
/// length and the packet id are read and not held against anything.
pub open spec fn handshake_request(b: Seq<u8>) -> Result<(nat, Seq<char>, u16, nat), ErrorKind> {
    match base_decoding(b) {
        Err(kind) => Err(kind),
        Ok((_, _, head)) => handshake_fields(b.skip(head as int)),
    }
}

/// What a whole handshake frame decodes to: what it asks for, where the
/// next state is one that exists.
pub open spec fn handshake_decoding(b: Seq<u8>) -> Result<(nat, Seq<char>, u16, nat), ErrorKind> {
    match handshake_request(b) {
        Err(kind) => Err(kind),
        Ok(request) => if is_valid_next_state(request.3) {
            Ok(request)
        } else {
            Err(ErrorKind::InvalidClient)
        },
    }
}

/// Decodes a handshake frame: protocol version, server address, port and
/// the requested next state. A frame that is cut short or malformed gives
/// the decode error; a next state other than 1 or 2 gives `InvalidClient`.
pub fn read_handshake_packet(packet: Vec<u8>) -> (r: SResult<(u32, String, u16, u32)>)
    ensures
        match handshake_decoding(packet@) {
            Ok((version, address, port, next)) => r matches Ok(found) && found.0 == version
                && found.1@ == address && found.2 == port && found.3 == next,
            Err(kind) => r == Err::<(u32, String, u16, u32), SimpleError>(SimpleError { kind }),
        },
{
    let mut p: Vec<u8> = packet;
    match p.read_base() {
        Ok(_) => {},
        Err(e) => {
            return Err(e);
        },
    }
    let version: i32 = match p.get_varint() {
        Ok(v) => v,
        Err(e) => {
            return Err(e);
        },
    };
    let address: String = match p.get_string() {
        Ok(v) => v,
        Err(e) => {
            return Err(e);
        },
    };
    let port: u16 = match p.get_u16() {
        Ok(v) => v,
        Err(e) => {
            return Err(e);
        },
    };
    let next_state: i32 = match p.get_varint() {
        Ok(v) => v,
        Err(e) => {
            return Err(e);
        },
    };
    if next_state != 1 && next_state != 2 {
        return Err(SimpleError { kind: ErrorKind::InvalidClient });
    }
    Ok((version as u32, address, port, next_state as u32))
}

} // verus!
