//! A connection as the protocol sees it: its stage, and what a read of its
//! socket brought.

use vstd::prelude::*;
use crate::error::{ErrorKind, SimpleError, SResult};

verus! {

/// The stage of a connection.
#[allow(non_camel_case_types)]
#[derive(Clone, Copy, Debug, PartialEq, Eq, Structural)]
pub enum ConnectionType {
    HANDSHAKING,
    STATUS,
}

/// Which operations a readiness event reports as possible.
#[derive(Clone, Copy, Debug, PartialEq, Eq, Structural)]
pub struct Readiness {
    pub readable: bool,
    pub writable: bool,
}

/// What the socket's read call returned.
#[derive(Clone, Copy, Debug, PartialEq, Eq, Structural)]
pub enum SocketRead {
    /// The call filled this many bytes of the buffer.
    Count(usize),
    /// Nothing is waiting to be read.
    WouldBlock,
    /// The call failed.
    Failed,
}

/// What a read that did not fail means to the stage handlers.
#[derive(Debug)]
pub enum ReadOutcome {
    /// The bytes that arrived.
    Data(Vec<u8>),
    /// The peer closed the stream.
    EndOfStream,
    /// Nothing is waiting to be read.
    WouldBlock,
}

/// The size of the buffer that one read fills.
pub const READ_BUFFER_SIZE: usize = 4096;

/// The state that the server keeps for one connection.
#[derive(Clone, Copy, Debug, PartialEq, Eq, Structural)]
pub struct NetworkClient {
    pub conn_type: ConnectionType,
}

impl NetworkClient {
    /// A connection that was just accepted.
    pub fn new() -> (client: NetworkClient)
        ensures
            client.conn_type == ConnectionType::HANDSHAKING,
    {
        NetworkClient { conn_type: ConnectionType::HANDSHAKING }
    }

    /// Turns the result of a read into what the handlers see: the bytes
    /// that were filled, the end of the stream where none was, a read that
    /// found nothing waiting, and `ReadFailed` for a read that failed.
    pub fn read(&self, buffer: Vec<u8>, result: SocketRead) -> (outcome: SResult<ReadOutcome>)
        requires
            result matches SocketRead::Count(n) ==> n <= buffer.len(),
        ensures
            match result {
                SocketRead::Count(n) => if n == 0 {
                    outcome == Ok::<ReadOutcome, SimpleError>(ReadOutcome::EndOfStream)
                } else {
                    outcome matches Ok(ReadOutcome::Data(bytes)) && bytes@ == buffer@.subrange(
                        0,
                        n as int,
                    )
                },
                SocketRead::WouldBlock => outcome == Ok::<ReadOutcome, SimpleError>(
                    ReadOutcome::WouldBlock,
                ),
                SocketRead::Failed => outcome == Err::<ReadOutcome, SimpleError>(
                    SimpleError { kind: ErrorKind::ReadFailed },
                ),
            },
    {
        match result {
            SocketRead::Count(n) => {
                if n == 0 {
                    Ok(ReadOutcome::EndOfStream)
                } else {
                    let mut bytes: Vec<u8> = buffer;
                    bytes.truncate(n);
                    Ok(ReadOutcome::Data(bytes))
                }
            },
            SocketRead::WouldBlock => Ok(ReadOutcome::WouldBlock),
            SocketRead::Failed => Err(SimpleError { kind: ErrorKind::ReadFailed }),
        }
    }
}

} // verus!
