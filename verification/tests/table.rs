use ule_net::error::{ErrorKind, SimpleError};
use ule_net::network_client::{ConnectionType, ReadOutcome, Readiness};
use ule_net::packet_write::PacketWriter;
use ule_net::server::{
    is_listener, loop_step, next, run_state_after, AcceptResult, AcceptStep, ConnectionTable, LoopStep, SERVER,
};

const BOTH: Readiness = Readiness { readable: true, writable: true };

fn data(bytes: Vec<u8>) -> Result<ReadOutcome, SimpleError> {
    Ok(ReadOutcome::Data(bytes))
}

fn failed() -> Result<ReadOutcome, SimpleError> {
    Err(SimpleError { kind: ErrorKind::ReadFailed })
}

fn handshake(next_state: i32) -> Vec<u8> {
    let mut body: Vec<u8> = Vec::new();
    body.write_varint(340);
    body.write_string(String::from("localhost"));
    body.write_u16(25565);
    body.write_varint(next_state);
    body.create_packet(0x00)
}

#[test]
fn tokens_are_handed_out_in_order() {
    let mut current: usize = SERVER + 1;
    assert_eq!(next(&mut current), 1);
    assert_eq!(next(&mut current), 2);
    assert_eq!(current, 3);
}

#[test]
fn accepted_connections_start_in_the_handshake() {
    let mut table = ConnectionTable::new();
    assert_eq!(table.stage(SERVER), None);
    assert_eq!(table.stage(1), None);
    assert_eq!(table.accept(), Some(1));
    assert_eq!(table.accept(), Some(2));
    assert_eq!(table.stage(1), Some(ConnectionType::HANDSHAKING));
    assert_eq!(table.stage(2), Some(ConnectionType::HANDSHAKING));
    assert_eq!(table.stage(3), None);
    assert_eq!(table.stage(SERVER), None);
}

#[test]
fn removal_is_idempotent() {
    let mut table = ConnectionTable::new();
    let a = table.accept().unwrap();
    let b = table.accept().unwrap();
    assert!(table.remove(a));
    assert_eq!(table.stage(a), None);
    assert_eq!(table.stage(b), Some(ConnectionType::HANDSHAKING));
    assert!(!table.remove(a));
    assert_eq!(table.stage(a), None);
    assert_eq!(table.stage(b), Some(ConnectionType::HANDSHAKING));
    assert!(!table.remove(77));
    assert_eq!(table.accept(), Some(3));
    assert_eq!(table.stage(a), None);
}

#[test]
fn tokens_are_not_used_again() {
    let mut table = ConnectionTable::new();
    let a = table.accept().unwrap();
    table.remove(a);
    let b = table.accept().unwrap();
    assert_ne!(a, b);
    assert_ne!(b, SERVER);
}

#[test]
fn events_for_unknown_tokens_are_ignored() {
    let mut table = ConnectionTable::new();
    let a = table.accept().unwrap();
    let mut out: Vec<u8> = Vec::new();
    assert!(!table.dispatch(42, &BOTH, failed(), "{}", &mut out));
    assert!(!table.dispatch(SERVER, &BOTH, data(handshake(1)), "{}", &mut out));
    assert!(out.is_empty());
    assert_eq!(table.stage(a), Some(ConnectionType::HANDSHAKING));
    assert_eq!(table.stage(42), None);
}

#[test]
fn dispatch_runs_the_handler_of_the_stage() {
    let mut table = ConnectionTable::new();
    let a = table.accept().unwrap();
    let b = table.accept().unwrap();
    let mut out: Vec<u8> = Vec::new();
    assert!(!table.dispatch(a, &BOTH, data(handshake(1)), "{}", &mut out));
    assert!(out.is_empty());
    assert_eq!(table.stage(a), Some(ConnectionType::STATUS));
    assert_eq!(table.stage(b), Some(ConnectionType::HANDSHAKING));
    assert!(!table.dispatch(a, &BOTH, data(vec![1, 0]), "{}", &mut out));
    assert_eq!(out, vec![4, 0, 2, b'{', b'}']);
    assert_eq!(table.stage(a), Some(ConnectionType::STATUS));
    let ping: Vec<u8> = vec![9, 1, 1, 2, 3, 4, 5, 6, 7, 8];
    let mut echoed: Vec<u8> = Vec::new();
    assert!(!table.dispatch(a, &BOTH, data(ping.clone()), "{}", &mut echoed));
    assert_eq!(echoed, ping);
}

#[test]
fn dispatch_keeps_open_on_protocol_errors() {
    let mut table = ConnectionTable::new();
    let a = table.accept().unwrap();
    let mut out: Vec<u8> = Vec::new();
    assert!(!table.dispatch(a, &BOTH, data(handshake(3)), "{}", &mut out));
    assert_eq!(table.stage(a), Some(ConnectionType::HANDSHAKING));
    assert!(!table.dispatch(a, &BOTH, data(handshake(0)), "{}", &mut out));
    assert_eq!(table.stage(a), Some(ConnectionType::HANDSHAKING));
    assert!(!table.dispatch(a, &BOTH, data(vec![0xff]), "{}", &mut out));
    assert_eq!(table.stage(a), Some(ConnectionType::HANDSHAKING));
    assert!(!table.dispatch(a, &BOTH, Ok(ReadOutcome::WouldBlock), "{}", &mut out));
    assert_eq!(table.stage(a), Some(ConnectionType::HANDSHAKING));
    assert!(out.is_empty());
}

#[test]
fn dispatch_closes_on_read_failure() {
    let mut table = ConnectionTable::new();
    let a = table.accept().unwrap();
    let b = table.accept().unwrap();
    let mut out: Vec<u8> = Vec::new();
    assert!(table.dispatch(a, &BOTH, failed(), "{}", &mut out));
    assert_eq!(table.stage(a), None);
    assert!(!table.dispatch(a, &BOTH, failed(), "{}", &mut out));
    assert!(!table.remove(a));
    assert!(!table.dispatch(b, &BOTH, data(handshake(2)), "{}", &mut out));
    assert_eq!(table.stage(b), Some(ConnectionType::STATUS));
    assert!(table.dispatch(b, &BOTH, Ok(ReadOutcome::EndOfStream), "{}", &mut out));
    assert_eq!(table.stage(b), None);
    assert!(out.is_empty());
}

#[test]
fn shutdown_stops_the_loop() {
    assert_eq!(loop_step(true), LoopStep::Stop);
    assert_eq!(loop_step(false), LoopStep::Poll);
    assert!(!run_state_after(loop_step(true)));
    assert!(run_state_after(loop_step(false)));
}

#[test]
fn closing_one_connection_leaves_the_others() {
    let mut table = ConnectionTable::new();
    let a = table.accept().unwrap();
    let b = table.accept().unwrap();
    let c = table.accept().unwrap();
    let mut out: Vec<u8> = Vec::new();
    assert!(!table.dispatch(c, &BOTH, data(handshake(1)), "{}", &mut out));
    assert!(table.dispatch(b, &BOTH, failed(), "{}", &mut out));
    assert_eq!(table.stage(a), Some(ConnectionType::HANDSHAKING));
    assert_eq!(table.stage(b), None);
    assert_eq!(table.stage(c), Some(ConnectionType::STATUS));
    assert!(out.is_empty());
}

#[test]
fn accept_loop_steps() {
    let mut table = ConnectionTable::new();
    assert_eq!(table.on_accept(AcceptResult::Connection), AcceptStep::Register(1));
    assert_eq!(table.on_accept(AcceptResult::Connection), AcceptStep::Register(2));
    assert_eq!(table.on_accept(AcceptResult::WouldBlock), AcceptStep::Done);
    assert_eq!(table.on_accept(AcceptResult::Failed), AcceptStep::Abort);
    assert_eq!(table.stage(1), Some(ConnectionType::HANDSHAKING));
    assert_eq!(table.stage(2), Some(ConnectionType::HANDSHAKING));
    assert_eq!(table.stage(3), None);
    assert_eq!(table.on_accept(AcceptResult::Connection), AcceptStep::Register(3));
}

#[test]
fn the_listener_has_its_own_token() {
    assert!(is_listener(SERVER));
    assert!(is_listener(0));
    assert!(!is_listener(1));
    assert!(!is_listener(usize::MAX));
}
