use serde_json::Value;
use ule_net::chat::ChatMessage;
use ule_net::config::{address, ADDRESS_PORT, MAX_PLAYERS, PROTOCOL_VERSION};
use ule_net::error::{ErrorKind, SimpleError};
use ule_net::handler::{handshaking, status_handler, status_request_id, wants_read};
use ule_net::handshaking::read_handshake_packet;
use ule_net::network_client::{ConnectionType, NetworkClient, ReadOutcome, Readiness, SocketRead};
use ule_net::packet_read::PacketReader;
use ule_net::packet_write::PacketWriter;
use ule_net::status::{create_server_list_ping_response, server_status, ListPingResponse};

const BOTH: Readiness = Readiness { readable: true, writable: true };
const READ_ONLY: Readiness = Readiness { readable: true, writable: false };
const WRITE_ONLY: Readiness = Readiness { readable: false, writable: true };

fn data(bytes: Vec<u8>) -> Result<ReadOutcome, SimpleError> {
    Ok(ReadOutcome::Data(bytes))
}

fn failed() -> Result<ReadOutcome, SimpleError> {
    Err(SimpleError { kind: ErrorKind::ReadFailed })
}

fn handshake_frame(version: i32, host: &str, port: u16, next: i32) -> Vec<u8> {
    let mut body: Vec<u8> = Vec::new();
    body.write_varint(version);
    body.write_string(String::from(host));
    body.write_u16(port);
    body.write_varint(next);
    body.create_packet(0x00)
}

fn chat_json(message: &ChatMessage) -> Value {
    let mut node = serde_json::Map::new();
    node.insert(String::from("text"), Value::String(message.text.clone()));
    if !message.bold.is_empty() {
        node.insert(String::from("bold"), Value::String(message.bold.clone()));
    }
    if !message.extra.is_empty() {
        node.insert(
            String::from("extra"),
            Value::Array(message.extra.iter().map(chat_json).collect()),
        );
    }
    Value::Object(node)
}

fn status_json(status: &ListPingResponse) -> String {
    let mut version = serde_json::Map::new();
    version.insert(String::from("name"), Value::String(status.version.name.clone()));
    version.insert(String::from("protocol"), Value::from(status.version.protocol));
    let mut players = serde_json::Map::new();
    players.insert(String::from("max"), Value::from(status.players.max));
    players.insert(String::from("online"), Value::from(status.players.online));
    players.insert(String::from("sample"), Value::Array(Vec::new()));
    let mut root = serde_json::Map::new();
    root.insert(String::from("version"), Value::Object(version));
    root.insert(String::from("players"), Value::Object(players));
    root.insert(String::from("description"), chat_json(&status.description));
    serde_json::to_string(&Value::Object(root)).unwrap()
}

#[test]
fn handshake_is_decoded() {
    let frame = handshake_frame(340, "localhost", 25565, 1);
    assert_eq!(
        read_handshake_packet(frame),
        Ok((340, String::from("localhost"), 25565, 1))
    );
    let frame = handshake_frame(47, "play.example.org", 1, 2);
    assert_eq!(
        read_handshake_packet(frame),
        Ok((47, String::from("play.example.org"), 1, 2))
    );
}

#[test]
fn handshake_exact_frame() {
    let frame: Vec<u8> = vec![8, 0, 0xd4, 0x02, 1, b'h', 0x63, 0xdd, 1];
    assert_eq!(handshake_frame(340, "h", 25565, 1), frame);
    assert_eq!(read_handshake_packet(frame), Ok((340, String::from("h"), 25565, 1)));
}

#[test]
fn handshake_next_state_is_checked() {
    for next in [0, 3, 4, 100, 268435455] {
        let frame = handshake_frame(340, "localhost", 25565, next);
        assert_eq!(
            read_handshake_packet(frame),
            Err(SimpleError { kind: ErrorKind::InvalidClient })
        );
    }
}

#[test]
fn handshake_decode_errors() {
    let whole = handshake_frame(340, "localhost", 25565, 1);
    for cut in 0..whole.len() {
        let part: Vec<u8> = whole[..cut].to_vec();
        assert_eq!(
            read_handshake_packet(part),
            Err(SimpleError { kind: ErrorKind::Truncated })
        );
    }
    let bad_text: Vec<u8> = vec![6, 0, 1, 2, 0xff, 0xff, 0, 1, 1];
    assert_eq!(
        read_handshake_packet(bad_text),
        Err(SimpleError { kind: ErrorKind::InvalidUtf8 })
    );
    let long_version: Vec<u8> = vec![6, 0, 0x80, 0x80, 0x80, 0x80, 0x01, 0, 0, 0, 1];
    assert_eq!(
        read_handshake_packet(long_version),
        Err(SimpleError { kind: ErrorKind::VarIntTooLong })
    );
}

#[test]
fn handshaking_moves_to_status() {
    for next in [1, 2] {
        let mut conn = NetworkClient::new();
        assert_eq!(conn.conn_type, ConnectionType::HANDSHAKING);
        let input = data(handshake_frame(340, "localhost", 25565, next));
        assert_eq!(handshaking(&mut conn, &READ_ONLY, input), Ok(false));
        assert_eq!(conn.conn_type, ConnectionType::STATUS);
    }
}

#[test]
fn handshaking_rejects_other_next_states() {
    for next in [0, 3, 7] {
        let mut conn = NetworkClient::new();
        let input = data(handshake_frame(340, "localhost", 25565, next));
        assert_eq!(handshaking(&mut conn, &BOTH, input), Ok(false));
        assert_eq!(conn.conn_type, ConnectionType::HANDSHAKING);
    }
}

#[test]
fn handshaking_keeps_open_on_malformed_data() {
    let mut conn = NetworkClient::new();
    let malformed: [Vec<u8>; 5] = [
        vec![0x80],
        Vec::new(),
        vec![3, 0, 0x80, 0x80, 0x80, 0x80, 0x01],
        vec![6, 0, 1, 2, 0xff, 0xff, 0, 1, 1],
        vec![8, 0, 0xd4, 0x02, 1, b'h', 0x63],
    ];
    for bytes in malformed {
        assert!(read_handshake_packet(bytes.clone()).is_err());
        assert_eq!(handshaking(&mut conn, &BOTH, data(bytes)), Ok(false));
        assert_eq!(conn.conn_type, ConnectionType::HANDSHAKING);
    }
}

#[test]
fn handshaking_without_data() {
    let mut conn = NetworkClient::new();
    assert_eq!(handshaking(&mut conn, &BOTH, failed()), Ok(true));
    assert_eq!(handshaking(&mut conn, &BOTH, Ok(ReadOutcome::EndOfStream)), Ok(true));
    assert_eq!(handshaking(&mut conn, &BOTH, Ok(ReadOutcome::WouldBlock)), Ok(false));
    let frame = handshake_frame(340, "localhost", 25565, 1);
    assert_eq!(handshaking(&mut conn, &WRITE_ONLY, data(frame)), Ok(false));
    assert_eq!(handshaking(&mut conn, &WRITE_ONLY, failed()), Ok(false));
    assert_eq!(conn.conn_type, ConnectionType::HANDSHAKING);
}

#[test]
fn status_request_scenario() {
    let json = status_json(&server_status());
    let mut conn = NetworkClient { conn_type: ConnectionType::STATUS };
    let mut out: Vec<u8> = Vec::new();
    let request: Vec<u8> = Vec::new().create_packet(0x00);
    assert_eq!(request, vec![1, 0]);
    let answer = status_handler(&mut conn, &BOTH, data(request), &json, &mut out);
    assert_eq!(answer, Ok(false));
    assert_eq!(conn.conn_type, ConnectionType::STATUS);
    assert_eq!(out, create_server_list_ping_response(json.clone()));
    let total = out.len();
    let (declared, pid) = out.read_base().unwrap();
    assert_eq!(pid, 0);
    assert_eq!(declared as usize + (total - out.len()) - 1, total);
    let body = out.get_string().unwrap();
    assert!(out.is_empty());
    assert_eq!(body, json);
    let decoded: Value = serde_json::from_str(&body).unwrap();
    assert_eq!(decoded["version"]["protocol"], Value::from(PROTOCOL_VERSION));
    assert_eq!(decoded["version"]["protocol"], Value::from(340));
    assert_eq!(decoded["version"]["name"], Value::from("ULE"));
    assert_eq!(decoded["players"]["online"], Value::from(0));
    assert_eq!(decoded["players"]["max"], Value::from(10));
    assert_eq!(decoded["players"]["sample"], Value::Array(Vec::new()));
    assert_eq!(
        decoded["description"]["text"],
        Value::from("\u{e22}\u{e07}a\u{e22}\u{e07}lHello!")
    );
}

#[test]
fn status_response_exact_frame() {
    assert_eq!(
        create_server_list_ping_response(String::from("{}")),
        vec![4, 0, 2, b'{', b'}']
    );
    assert_eq!(create_server_list_ping_response(String::new()), vec![2, 0, 0]);
}

#[test]
fn ping_scenario() {
    let mut payload: Vec<u8> = vec![1, 2, 3, 4, 5, 6, 7, 8];
    let frame = payload.create_packet(0x01);
    assert_eq!(frame, vec![9, 1, 1, 2, 3, 4, 5, 6, 7, 8]);
    let mut conn = NetworkClient { conn_type: ConnectionType::STATUS };
    let mut out: Vec<u8> = Vec::new();
    let answer =
        status_handler(&mut conn, &BOTH, data(frame.clone()), "{}", &mut out);
    assert_eq!(answer, Ok(false));
    assert_eq!(out, frame);
}

#[test]
fn ping_echo_keeps_what_follows_the_frame() {
    let frame: Vec<u8> = vec![9, 1, 1, 2, 3, 4, 5, 6, 7, 8, 0xaa, 0xbb];
    let mut conn = NetworkClient { conn_type: ConnectionType::STATUS };
    let mut out: Vec<u8> = vec![0x10];
    let answer =
        status_handler(&mut conn, &BOTH, data(frame.clone()), "{}", &mut out);
    assert_eq!(answer, Ok(false));
    assert_eq!(out, vec![0x10, 9, 1, 1, 2, 3, 4, 5, 6, 7, 8, 0xaa, 0xbb]);
}

#[test]
fn status_ignores_other_packets() {
    let mut conn = NetworkClient { conn_type: ConnectionType::STATUS };
    let mut out: Vec<u8> = Vec::new();
    let frame: Vec<u8> = vec![1, 2];
    assert_eq!(status_handler(&mut conn, &BOTH, data(frame), "{}", &mut out), Ok(false));
    assert!(out.is_empty());
}

#[test]
fn status_needs_both_kinds_of_readiness() {
    let mut conn = NetworkClient { conn_type: ConnectionType::STATUS };
    let mut out: Vec<u8> = Vec::new();
    for event in [READ_ONLY, WRITE_ONLY, Readiness { readable: false, writable: false }] {
        let frame: Vec<u8> = vec![1, 0];
        assert_eq!(
            status_handler(&mut conn, &event, data(frame), "{}", &mut out),
            Ok(false)
        );
        assert_eq!(status_handler(&mut conn, &event, failed(), "{}", &mut out), Ok(false));
    }
    assert!(out.is_empty());
}

#[test]
fn status_without_data() {
    let mut conn = NetworkClient { conn_type: ConnectionType::STATUS };
    let mut out: Vec<u8> = Vec::new();
    assert_eq!(status_handler(&mut conn, &BOTH, failed(), "{}", &mut out), Ok(true));
    assert_eq!(status_handler(&mut conn, &BOTH, Ok(ReadOutcome::EndOfStream), "{}", &mut out), Ok(true));
    assert_eq!(status_handler(&mut conn, &BOTH, Ok(ReadOutcome::WouldBlock), "{}", &mut out), Ok(false));
    assert_eq!(
        status_handler(&mut conn, &BOTH, data(vec![0x80]), "{}", &mut out),
        Err(SimpleError { kind: ErrorKind::Truncated })
    );
    assert!(out.is_empty());
}

#[test]
fn wants_read_by_stage() {
    assert!(wants_read(ConnectionType::HANDSHAKING, &READ_ONLY));
    assert!(wants_read(ConnectionType::HANDSHAKING, &BOTH));
    assert!(!wants_read(ConnectionType::HANDSHAKING, &WRITE_ONLY));
    assert!(wants_read(ConnectionType::STATUS, &BOTH));
    assert!(!wants_read(ConnectionType::STATUS, &READ_ONLY));
    assert!(!wants_read(ConnectionType::STATUS, &WRITE_ONLY));
}

#[test]
fn read_outcomes() {
    let conn = NetworkClient::new();
    let buffer: Vec<u8> = vec![1, 2, 3, 0, 0];
    assert!(matches!(
        conn.read(buffer.clone(), SocketRead::Count(0)),
        Ok(ReadOutcome::EndOfStream)
    ));
    assert!(matches!(
        conn.read(buffer.clone(), SocketRead::WouldBlock),
        Ok(ReadOutcome::WouldBlock)
    ));
    match conn.read(buffer.clone(), SocketRead::Failed) {
        Err(e) => {
            assert_eq!(e, SimpleError { kind: ErrorKind::ReadFailed });
            assert_eq!(e.message(), "Failed to read packet");
        }
        other => panic!("unexpected outcome {:?}", other),
    }
    match conn.read(buffer.clone(), SocketRead::Count(3)) {
        Ok(ReadOutcome::Data(bytes)) => assert_eq!(bytes, vec![1, 2, 3]),
        other => panic!("unexpected outcome {:?}", other),
    }
    match conn.read(buffer, SocketRead::Count(5)) {
        Ok(ReadOutcome::Data(bytes)) => assert_eq!(bytes, vec![1, 2, 3, 0, 0]),
        other => panic!("unexpected outcome {:?}", other),
    }
}

#[test]
fn chat_text_is_formatted() {
    let message = ChatMessage::text(String::from("&aHi & bye"));
    assert_eq!(message.text, "\u{e22}\u{e07}aHi \u{e22}\u{e07} bye");
    assert_eq!(message.bold, "");
    assert!(message.extra.is_empty());
    let plain = ChatMessage::text(String::from("plain"));
    assert_eq!(plain.text, "plain");
    let empty = ChatMessage::text(String::new());
    assert_eq!(empty.text, "");
}

#[test]
fn chat_str_is_formatted() {
    let message = ChatMessage::str("&a&lHello!");
    assert_eq!(message.text, "\u{e22}\u{e07}a\u{e22}\u{e07}lHello!");
    assert_eq!(message.bold, "");
    assert!(message.extra.is_empty());
}

#[test]
fn chat_bold_is_a_word() {
    let mut message = ChatMessage::str("x");
    message.set_bold(true);
    assert_eq!(message.bold, "true");
    assert_eq!(message.text, "x");
    message.set_bold(false);
    assert_eq!(message.bold, "false");
    assert!(message.extra.is_empty());
}

#[test]
fn configured_status() {
    let status = server_status();
    assert_eq!(status.version.name, "ULE");
    assert_eq!(status.version.protocol, 340);
    assert_eq!(status.players.max, MAX_PLAYERS);
    assert_eq!(status.players.max, 10);
    assert_eq!(status.players.online, 0);
    assert!(status.players.sample.is_empty());
    assert_eq!(status.description.text, "\u{e22}\u{e07}a\u{e22}\u{e07}lHello!");
    assert_eq!(address(), "0.0.0.0");
    assert_eq!(ADDRESS_PORT, 25565);
}

#[test]
fn status_request_ids() {
    assert_eq!(status_request_id(&BOTH, &data(vec![1, 0])), Some(0));
    assert_eq!(status_request_id(&BOTH, &data(vec![9, 1, 1, 2, 3, 4, 5, 6, 7, 8])), Some(1));
    assert_eq!(status_request_id(&BOTH, &data(vec![3, 0xac, 0x02, 7])), Some(300));
    assert_eq!(status_request_id(&BOTH, &data(vec![1])), None);
    assert_eq!(status_request_id(&BOTH, &data(Vec::new())), None);
    assert_eq!(status_request_id(&BOTH, &data(vec![1, 0x80, 0x80, 0x80, 0x80, 1])), None);
    assert_eq!(status_request_id(&READ_ONLY, &data(vec![1, 0])), None);
    assert_eq!(status_request_id(&WRITE_ONLY, &data(vec![1, 0])), None);
    assert_eq!(status_request_id(&BOTH, &failed()), None);
    assert_eq!(status_request_id(&BOTH, &Ok(ReadOutcome::EndOfStream)), None);
    assert_eq!(status_request_id(&BOTH, &Ok(ReadOutcome::WouldBlock)), None);
}

#[test]
fn ping_echo_of_any_length() {
    for len in [0usize, 1, 8, 100, 4000] {
        let mut payload: Vec<u8> = vec![0x5a; len];
        let mut frame = payload.create_packet(0x01);
        frame.truncate(4096);
        let mut conn = NetworkClient { conn_type: ConnectionType::STATUS };
        let mut out: Vec<u8> = Vec::new();
        let answer = status_handler(&mut conn, &BOTH, data(frame.clone()), "", &mut out);
        assert_eq!(answer, Ok(false));
        assert_eq!(out, frame);
        assert_eq!(conn.conn_type, ConnectionType::STATUS);
    }
}
