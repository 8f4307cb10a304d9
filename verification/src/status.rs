//! The status response: what the server reports of itself, and the frame
//! that carries the report.

use vstd::prelude::*;
use vstd::utf8::encode_utf8;
use crate::chat::{formatted, ChatMessage};
use crate::config::{description, server_name, MAX_PLAYERS, PROTOCOL_VERSION};
use crate::packet_write::{packet_bytes, string_encoding, PacketWriter};
use crate::varint::lemma_length_prefix_fits;

verus! {

/// The report as a whole.
#[derive(Debug)]
pub struct ListPingResponse {
    pub version: ListPingResponseVersion,
    pub players: ListPingResponsePlayers,
    pub description: ChatMessage,
}

/// The server's name and protocol version.
#[derive(Debug)]
pub struct ListPingResponseVersion {
    pub name: String,
    pub protocol: u32,
}

/// The player counts, and some of the players.
#[derive(Debug)]
pub struct ListPingResponsePlayers {
    pub max: u32,
    pub online: u32,
    pub sample: Vec<ListPingResponsePlayerSample>,
}

/// One player of the sample.
#[derive(Debug)]
pub struct ListPingResponsePlayerSample {
    pub name: String,
    pub id: String,
}

/// The longest UTF-8 form of a report that can be framed.
pub const MAX_STATUS_BYTES: usize = 0x7fff_0000;

/// The packet id of the status response.
pub const STATUS_RESPONSE_ID: i32 = 0;

/// The frame that carries the report `json`: packet 0 with one string.
pub open spec fn status_response_bytes(json: Seq<char>) -> Seq<u8> {
    packet_bytes(STATUS_RESPONSE_ID, string_encoding(json))
}

/// What the server reports of itself: its configured name, protocol version
/// and room, nobody online, no sample, and the formatted description.
pub fn server_status() -> (status: ListPingResponse)
    ensures
        status.version.name@ == "ULE"@,
        status.version.protocol == PROTOCOL_VERSION,
        status.players.max == MAX_PLAYERS,
        status.players.online == 0,
        status.players.sample@ == Seq::<ListPingResponsePlayerSample>::empty(),
        status.description.text@ == formatted("&a&lHello!"@),
        status.description.bold@ == Seq::<char>::empty(),
        status.description.extra@ == Seq::<ChatMessage>::empty(),
{
    ListPingResponse {
        version: ListPingResponseVersion {
            name: server_name().to_string(),
            protocol: PROTOCOL_VERSION,
        },
        players: ListPingResponsePlayers { max: MAX_PLAYERS, online: 0, sample: Vec::new() },
        description: ChatMessage::str(description()),
    }
}

/// Frames the serialised report `json` as the status response.
pub fn create_server_list_ping_response(json: String) -> (packet: Vec<u8>)
    requires
        encode_utf8(json@).len() <= MAX_STATUS_BYTES,
    ensures
        packet@ == status_response_bytes(json@),
{
    let mut bytes: Vec<u8> = Vec::new();
    proof {
        lemma_length_prefix_fits(encode_utf8(json@).len());
    }
    bytes.write_string(json);
    proof {
        assert(bytes@ =~= string_encoding(json@));
    }
    bytes.create_packet(STATUS_RESPONSE_ID)
}

} // verus!
