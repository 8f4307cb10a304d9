//! The stage handlers: what the server does with one readiness event of a
//! connection, given what a read of its socket brought.
//!
//! Neither handler closes a connection over what a client sent. A frame
//! that cannot be decoded, or a handshake that asks for a next state that
//! does not exist, leaves the connection open and in its stage: a client
//! may go on sending such frames without being disconnected. Only a failed
//! read or the end of the stream closes. The handshake handler drops such
//! a frame silently and answers "keep open"; the status handler hands the
//! decode error back, which the table takes as "keep open" too.

use vstd::prelude::*;
use vstd::utf8::encode_utf8;
use crate::error::{ErrorKind, SimpleError, SResult};
use crate::handshaking::{handshake_decoding, handshake_request, read_handshake_packet};
use crate::network_client::{ConnectionType, NetworkClient, ReadOutcome, Readiness};
use crate::packet_read::{base_decoding, copy_range, lemma_front_varint, PacketReader};
use crate::varint::parse_varint;
use crate::packet_write::extend_bytes;
use crate::status::{create_server_list_ping_response, status_response_bytes, MAX_STATUS_BYTES};

verus! {

/// The packet id of a status request.
pub const STATUS_REQUEST_ID: i32 = 0;

/// The packet id of a ping.
pub const PING_ID: i32 = 1;

/// Whether the handshake stage reads the socket on `event`.
pub open spec fn handshaking_acts(event: Readiness) -> bool {
    event.readable
}

/// Whether the status stage reads the socket on `event`.
pub open spec fn status_acts(event: Readiness) -> bool {
    event.readable && event.writable
}

/// What a handler answers to a read that brought no bytes; `None` where
/// bytes arrived.
pub open spec fn idle_answer(input: SResult<ReadOutcome>) -> Option<bool> {
    match input {
        Ok(ReadOutcome::Data(_)) => None,
        Ok(ReadOutcome::EndOfStream) => Some(true),
        Ok(ReadOutcome::WouldBlock) => Some(false),
        Err(_) => Some(true),
    }
}

/// What the handshake handler returns: whether to close the connection. It
/// never returns an error: bytes that do not decode as a handshake, and a
/// handshake that asks for a next state that does not exist, are dropped
/// with the connection kept open.
pub open spec fn handshaking_answer(event: Readiness, input: SResult<ReadOutcome>) -> SResult<bool> {
    if !handshaking_acts(event) {
        Ok(false)
    } else {
        match input {
            Ok(ReadOutcome::Data(_)) => Ok(false),
            _ => Ok(idle_answer(input).unwrap()),
        }
    }
}

/// The stage in which the handshake handler leaves a connection: the status
/// stage after a handshake that decodes and asks for next state 1 or 2, the
/// stage it was in otherwise. Next state 2 is meant for a login stage that
/// does not exist yet; until it does, such a connection goes to the status
/// stage as well.
pub open spec fn handshaking_stage(
    stage: ConnectionType,
    event: Readiness,
    input: SResult<ReadOutcome>,
) -> ConnectionType {
    match input {
        Ok(ReadOutcome::Data(bytes)) => if handshaking_acts(event) && handshake_decoding(
            bytes@,
        ) is Ok {
            ConnectionType::STATUS
        } else {
            stage
        },
        _ => stage,
    }
}

/// What the status handler returns: whether to close the connection, or the
/// error over which the event is dropped.
pub open spec fn status_answer(event: Readiness, input: SResult<ReadOutcome>) -> SResult<bool> {
    if !status_acts(event) {
        Ok(false)
    } else {
        match input {
            Ok(ReadOutcome::Data(bytes)) => match base_decoding(bytes@) {
                Ok(_) => Ok(false),
                Err(kind) => Err(SimpleError { kind }),
            },
            _ => Ok(idle_answer(input).unwrap()),
        }
    }
}

/// The packet id that the status stage finds on `event`: none where it does
/// not act, where no bytes arrived, or where the head of the frame does not
/// decode.
pub open spec fn status_request(event: Readiness, input: SResult<ReadOutcome>) -> Option<nat> {
    match input {
        Ok(ReadOutcome::Data(bytes)) => if !status_acts(event) {
            None
        } else {
            match base_decoding(bytes@) {
                Ok((_, pid, _)) => Some(pid),
                Err(_) => None,
            }
        },
        _ => None,
    }
}

/// Whether the status stage is to send the status response on `event`.
pub open spec fn asks_for_status(event: Readiness, input: SResult<ReadOutcome>) -> bool {
    status_request(event, input) == Some(STATUS_REQUEST_ID as nat)
}

/// The bytes that the status handler sends: the status response to a status
/// request, the received bytes as they came to a ping, nothing otherwise.
pub open spec fn status_reply(event: Readiness, input: SResult<ReadOutcome>, json: Seq<char>) -> Seq<u8> {
    match input {
        Ok(ReadOutcome::Data(bytes)) => if !status_acts(event) {
            Seq::<u8>::empty()
        } else {
            match base_decoding(bytes@) {
                Ok((_, pid, _)) => if pid == STATUS_REQUEST_ID {
                    status_response_bytes(json)
                } else if pid == PING_ID {
                    bytes@
                } else {
                    Seq::<u8>::empty()
                },
                Err(_) => Seq::<u8>::empty(),
            }
        },
        _ => Seq::<u8>::empty(),
    }
}

/// Whether a handler of `stage` reads the socket on `event`. Where it does
/// not, what is handed to it as the read's outcome is not looked at.
pub fn wants_read(stage: ConnectionType, event: &Readiness) -> (wanted: bool)
    ensures
        wanted == match stage {
            ConnectionType::HANDSHAKING => handshaking_acts(*event),
            ConnectionType::STATUS => status_acts(*event),
        },
{
    match stage {
        ConnectionType::HANDSHAKING => event.readable,
        ConnectionType::STATUS => event.readable && event.writable,
    }
}

/// The packet id that the status stage finds on `event`, for a caller that
/// wants to know what was asked before the handler runs.
pub fn status_request_id(event: &Readiness, input: &SResult<ReadOutcome>) -> (id: Option<i32>)
    ensures
        match status_request(*event, *input) {
            Some(pid) => id == Some(pid as i32) && pid < 268435456,
            None => id is None,
        },
{
    if !event.readable || !event.writable {
        return None;
    }
    match input {
        Ok(ReadOutcome::Data(bytes)) => {
            proof {
                lemma_front_varint(bytes@);
            }
            let start: usize = match parse_varint(bytes, 0) {
                Ok((_, end)) => end,
                Err(_) => {
                    return None;
                },
            };
            proof {
                lemma_front_varint(bytes@.skip(start as int));
            }
            match parse_varint(bytes, start) {
                Ok((pid, _)) => Some(pid),
                Err(_) => None,
            }
        },
        _ => None,
    }
}

/// The handshake stage. `input` is what the read of the socket brought, or
/// the error of a read that failed. The answer is always a close decision:
/// a frame that does not decode, or that asks for a next state that does
/// not exist, is dropped, and the connection stays open in its stage.
pub fn handshaking(conn: &mut NetworkClient, event: &Readiness, input: SResult<ReadOutcome>) -> (r: SResult<
    bool,
>)
    ensures
        r == handshaking_answer(*event, input),
        final(conn).conn_type == handshaking_stage(old(conn).conn_type, *event, input),
{
    if !event.readable {
        return Ok(false);
    }
    match input {
        Ok(ReadOutcome::Data(bytes)) => {
            match read_handshake_packet(bytes) {
                Ok(_) => {
                    conn.conn_type = ConnectionType::STATUS;
                    Ok(false)
                },
                Err(_) => Ok(false),
            }
        },
        Ok(ReadOutcome::EndOfStream) => Ok(true),
        Ok(ReadOutcome::WouldBlock) => Ok(false),
        Err(_) => Ok(true),
    }
}

/// The status stage. `input` is what the read of the socket brought, or the
/// error of a read that failed; `status_json` is the serialised report. What
/// is to be sent is appended to `out`.
pub fn status_handler(
    conn: &mut NetworkClient,
    event: &Readiness,
    input: SResult<ReadOutcome>,
    status_json: &str,
    out: &mut Vec<u8>,
) -> (r: SResult<bool>)
    requires
        asks_for_status(*event, input) ==> encode_utf8(status_json@).len() <= MAX_STATUS_BYTES,
    ensures
        r == status_answer(*event, input),
        final(out)@ == old(out)@ + status_reply(*event, input, status_json@),
        *final(conn) == *old(conn),
{
    proof {
        assert(old(out)@ + Seq::<u8>::empty() =~= old(out)@);
    }
    if !event.readable || !event.writable {
        return Ok(false);
    }
    match input {
        Ok(ReadOutcome::Data(bytes)) => {
            let mut p: Vec<u8> = copy_range(&bytes, 0, bytes.len());
            proof {
                assert(p@ =~= bytes@);
            }
            let (_, pid) = match p.read_base() {
                Ok(base) => base,
                Err(e) => {
                    return Err(e);
                },
            };
            if pid == STATUS_REQUEST_ID {
                let response: Vec<u8> = create_server_list_ping_response(status_json.to_string());
                extend_bytes(out, response.as_slice());
            } else if pid == PING_ID {
                extend_bytes(out, bytes.as_slice());
            }
            Ok(false)
        },
        Ok(ReadOutcome::EndOfStream) => Ok(true),
        Ok(ReadOutcome::WouldBlock) => Ok(false),
        Err(_) => Ok(true),
    }
}

/// Handshake acceptance: on a readable event, a handshake that asks for
/// next state 1 moves the connection to the status stage. One that asks for
/// next state 0, or for 3 or more, is refused by the decoder as an invalid
/// client; the handler then keeps the connection open and in its stage.
pub proof fn law_handshake_acceptance(stage: ConnectionType, event: Readiness, frame: Vec<u8>)
    requires
        event.readable,
        handshake_request(frame@) is Ok,
    ensures
        handshaking_answer(event, Ok(ReadOutcome::Data(frame))) == Ok::<bool, SimpleError>(false),
        handshake_request(frame@).unwrap().3 == 1 ==> handshake_decoding(frame@)
            == handshake_request(frame@) && handshaking_stage(
            stage,
            event,
            Ok(ReadOutcome::Data(frame)),
        ) == ConnectionType::STATUS,
        handshake_request(frame@).unwrap().3 == 0 || handshake_request(frame@).unwrap().3 >= 3
            ==> handshake_decoding(frame@) == Err::<(nat, Seq<char>, u16, nat), ErrorKind>(
            ErrorKind::InvalidClient,
        ) && handshaking_stage(stage, event, Ok(ReadOutcome::Data(frame))) == stage,
{
}

/// Bytes that do not decode as a handshake are dropped: the handler keeps
/// the connection open and in its stage, whatever the bytes are.
pub proof fn law_malformed_handshake_is_dropped(
    stage: ConnectionType,
    event: Readiness,
    frame: Vec<u8>,
)
    requires
        handshake_decoding(frame@) is Err,
    ensures
        handshaking_answer(event, Ok(ReadOutcome::Data(frame))) == Ok::<bool, SimpleError>(false),
        handshaking_stage(stage, event, Ok(ReadOutcome::Data(frame))) == stage,
{
}

/// Status request: on an event that is readable and writable, the frame of
/// a status request with an empty body (length 1, id 0) is answered with
/// the status response, and the connection stays open.
pub proof fn law_status_request_is_answered(event: Readiness, frame: Vec<u8>, json: Seq<char>)
    requires
        event.readable,
        event.writable,
        frame@ == seq![1u8, 0u8],
    ensures
        asks_for_status(event, Ok(ReadOutcome::Data(frame))),
        status_reply(event, Ok(ReadOutcome::Data(frame)), json) == status_response_bytes(json),
        status_answer(event, Ok(ReadOutcome::Data(frame))) == Ok::<bool, SimpleError>(false),
{
    reveal_with_fuel(crate::varint::varint_decoding, 2);
    assert(frame@.skip(1)[0] == 0u8);
}

/// Ping: on an event that is readable and writable, bytes whose head decodes
/// to packet id 1 are sent back as they came, all of them and in order,
/// whatever length the head declares and whatever the report is; and the
/// connection stays open.
pub proof fn law_ping_is_echoed(event: Readiness, frame: Vec<u8>, json: Seq<char>)
    requires
        event.readable,
        event.writable,
        base_decoding(frame@) is Ok,
        base_decoding(frame@).unwrap().1 == PING_ID,
    ensures
        !asks_for_status(event, Ok(ReadOutcome::Data(frame))),
        status_reply(event, Ok(ReadOutcome::Data(frame)), json) == frame@,
        status_answer(event, Ok(ReadOutcome::Data(frame))) == Ok::<bool, SimpleError>(false),
{
}

/// What the status stage sends: to a status request the status response,
/// to a ping the very bytes that came, frame head and all; and it leaves the
/// connection open after either.
pub proof fn law_status_replies(event: Readiness, frame: Vec<u8>, json: Seq<char>)
    requires
        event.readable,
        event.writable,
        base_decoding(frame@) is Ok,
    ensures
        base_decoding(frame@).unwrap().1 == STATUS_REQUEST_ID ==> status_reply(
            event,
            Ok(ReadOutcome::Data(frame)),
            json,
        ) == status_response_bytes(json),
        base_decoding(frame@).unwrap().1 == PING_ID ==> status_reply(
            event,
            Ok(ReadOutcome::Data(frame)),
            json,
        ) == frame@,
        status_answer(event, Ok(ReadOutcome::Data(frame))) == Ok::<bool, SimpleError>(false),
{
}

} // verus!
