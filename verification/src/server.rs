//! The connection table and the decisions of the event loop: which token a
//! new connection gets, which handler an event goes to, and when an entry
//! leaves the table.

use vstd::prelude::*;
use vstd::utf8::encode_utf8;
use ahash::AHashMap;
use crate::error::{SimpleError, SResult};
use crate::handler::{
    asks_for_status, handshaking, handshaking_acts, handshaking_answer, handshaking_stage, status_acts,
    status_answer, status_handler, status_reply,
};
use crate::network_client::{ConnectionType, NetworkClient, ReadOutcome, Readiness};
use crate::status::MAX_STATUS_BYTES;

verus! {

/// `ahash::AHashMap`, a hash map. Nothing is seen inside it: what it holds
/// is known through `table_entries` alone.
#[verifier::external_type_specification]
#[verifier::external_body]
#[verifier::reject_recursive_types(K)]
#[verifier::reject_recursive_types(V)]
#[verifier::reject_recursive_types(S)]
pub struct ExAHashMap<K, V, S>(ahash::AHashMap<K, V, S>);

/// `ahash::RandomState`, the hasher that the map is built with.
#[verifier::external_type_specification]
#[verifier::external_body]
pub struct ExRandomState(ahash::RandomState);

/// The entries of a map of connections.
pub uninterp spec fn table_entries(m: AHashMap<usize, NetworkClient>) -> Map<usize, NetworkClient>;

/// The table that holds no connection.
pub open spec fn no_connections() -> Map<usize, NetworkClient> {
    Map::empty()
}

/// `AHashMap::new`: a map without entries.
#[verifier::external_body]
fn table_new() -> (table: AHashMap<usize, NetworkClient>)
    ensures
        table_entries(table) == no_connections(),
{
    AHashMap::new()
}

/// `AHashMap::insert`: the key maps to the new value, the other entries
/// stay; the value that the key had before is handed back.
#[verifier::external_body]
fn table_insert(m: &mut AHashMap<usize, NetworkClient>, token: usize, conn: NetworkClient) -> (prev:
    Option<NetworkClient>)
    ensures
        table_entries(*final(m)) == table_entries(*old(m)).insert(token, conn),
        prev == (if table_entries(*old(m)).contains_key(token) {
            Some(table_entries(*old(m))[token])
        } else {
            None::<NetworkClient>
        }),
{
    m.insert(token, conn)
}

/// `AHashMap::get`: the value that the key maps to, if it has one.
#[verifier::external_body]
fn table_get(m: &AHashMap<usize, NetworkClient>, token: usize) -> (found: Option<NetworkClient>)
    ensures
        found == (if table_entries(*m).contains_key(token) {
            Some(table_entries(*m)[token])
        } else {
            None::<NetworkClient>
        }),
{
    m.get(&token).copied()
}

/// `AHashMap::remove`: the key's entry leaves, the other entries stay; the
/// value that the key had is handed back.
#[verifier::external_body]
fn table_remove(m: &mut AHashMap<usize, NetworkClient>, token: usize) -> (prev: Option<
    NetworkClient,
>)
    ensures
        table_entries(*final(m)) == table_entries(*old(m)).remove(token),
        prev == (if table_entries(*old(m)).contains_key(token) {
            Some(table_entries(*old(m))[token])
        } else {
            None::<NetworkClient>
        }),
{
    m.remove(&token)
}

/// The token of the listening socket. No connection has it.
pub const SERVER: usize = 0;

/// How long one poll waits for events, in milliseconds.
pub const POLL_TIMEOUT_MS: u64 = 10;

/// How many events one poll takes.
pub const EVENT_CAPACITY: usize = 128;

/// Every token in `entries` is a connection's token that was handed out
/// before `next`.
pub open spec fn tokens_below(entries: Map<usize, NetworkClient>, next: usize) -> bool {
    SERVER < next && forall|t: usize| #[trigger] entries.contains_key(t) ==> SERVER < t < next
}

/// The answer of the handler of `stage`.
pub open spec fn dispatch_answer(
    stage: ConnectionType,
    event: Readiness,
    input: SResult<ReadOutcome>,
) -> SResult<bool> {
    match stage {
        ConnectionType::HANDSHAKING => handshaking_answer(event, input),
        ConnectionType::STATUS => status_answer(event, input),
    }
}

/// Whether the event closes the connection: the handler said so. An event
/// that a handler dropped over an error closes nothing.
pub open spec fn dispatch_closes(stage: ConnectionType, event: Readiness, input: SResult<ReadOutcome>) -> bool {
    dispatch_answer(stage, event, input) == Ok::<bool, SimpleError>(true)
}

/// The stage of the connection after the event.
pub open spec fn dispatch_stage(
    stage: ConnectionType,
    event: Readiness,
    input: SResult<ReadOutcome>,
) -> ConnectionType {
    match stage {
        ConnectionType::HANDSHAKING => handshaking_stage(stage, event, input),
        ConnectionType::STATUS => stage,
    }
}

/// The bytes to send to the connection after the event.
pub open spec fn dispatch_reply(
    stage: ConnectionType,
    event: Readiness,
    input: SResult<ReadOutcome>,
    json: Seq<char>,
) -> Seq<u8> {
    match stage {
        ConnectionType::HANDSHAKING => Seq::<u8>::empty(),
        ConnectionType::STATUS => status_reply(event, input, json),
    }
}

/// Hands out the current token and moves on to the next.
pub fn next(current: &mut usize) -> (token: usize)
    requires
        *old(current) < usize::MAX,
    ensures
        token == *old(current),
        *final(current) == *old(current) + 1,
{
    let token: usize = *current;
    *current = token + 1;
    token
}

/// What the loop does at the top of an iteration.
#[derive(Clone, Copy, Debug, PartialEq, Eq, Structural)]
pub enum LoopStep {
    /// Poll for events and handle them.
    Poll,
    /// Report that the server no longer runs, and return.
    Stop,
}

/// The step that an iteration takes, given whether a shutdown was asked for.
pub open spec fn shutdown_step(shutdown_requested: bool) -> LoopStep {
    if shutdown_requested {
        LoopStep::Stop
    } else {
        LoopStep::Poll
    }
}

/// Whether the server runs after `step`.
pub open spec fn runs_after(step: LoopStep) -> bool {
    step == LoopStep::Poll
}

/// The step that the loop takes: it stops as soon as a shutdown was asked
/// for, without looking at the connections that are still open.
pub fn loop_step(shutdown_requested: bool) -> (step: LoopStep)
    ensures
        step == shutdown_step(shutdown_requested),
{
    if shutdown_requested {
        LoopStep::Stop
    } else {
        LoopStep::Poll
    }
}

/// What an attempt to accept a connection on the listening socket brought.
#[derive(Clone, Copy, Debug, PartialEq, Eq, Structural)]
pub enum AcceptResult {
    /// A connection was accepted.
    Connection,
    /// No connection is pending.
    WouldBlock,
    /// The attempt failed.
    Failed,
}

/// Whether the server still runs after `step`: a loop that stops reports
/// that it no longer does.
pub fn run_state_after(step: LoopStep) -> (running: bool)
    ensures
        running == runs_after(step),
{
    match step {
        LoopStep::Poll => true,
        LoopStep::Stop => false,
    }
}

/// What the loop does after an attempt to accept.
#[derive(Clone, Copy, Debug, PartialEq, Eq, Structural)]
pub enum AcceptStep {
    /// Register the new socket under this token for reading and writing,
    /// and try to accept once more.
    Register(usize),
    /// Nothing is pending: go on with the next event.
    Done,
    /// Give the loop up with an error.
    Abort,
}

/// Whether `token` is the listening socket's.
pub fn is_listener(token: usize) -> (listener: bool)
    ensures
        listener == (token == SERVER),
{
    token == SERVER
}

/// The live connections, each under its token.
pub struct ConnectionTable {
    connections: AHashMap<usize, NetworkClient>,
    unique_token: usize,
}

impl View for ConnectionTable {
    type V = Map<usize, NetworkClient>;

    closed spec fn view(&self) -> Map<usize, NetworkClient> {
        table_entries(self.connections)
    }
}

impl ConnectionTable {
    /// The token that the next connection gets.
    pub closed spec fn next_token(&self) -> usize {
        self.unique_token
    }

    /// The listener's token is none of the table's, and no token of the
    /// table will be handed out again.
    pub open spec fn wf(&self) -> bool {
        tokens_below(self@, self.next_token())
    }

    /// A table without connections.
    pub fn new() -> (table: ConnectionTable)
        ensures
            table.wf(),
            table@ == no_connections(),
            table.next_token() == SERVER + 1,
    {
        ConnectionTable { connections: table_new(), unique_token: SERVER + 1 }
    }

    /// Takes in a connection that was just accepted: it gets a token that
    /// no connection had before, and starts in the handshake stage. Gives
    /// `None`, and changes nothing, once the tokens are used up.
    pub fn accept(&mut self) -> (token: Option<usize>)
        requires
            old(self).wf(),
        ensures
            final(self).wf(),
            old(self).next_token() == usize::MAX ==> token is None && final(self)@ == old(self)@
                && final(self).next_token() == old(self).next_token(),
            old(self).next_token() < usize::MAX ==> token == Some(old(self).next_token())
                && !old(self)@.contains_key(old(self).next_token()) && final(self)@ == old(self)@.insert(
                old(self).next_token(),
                NetworkClient { conn_type: ConnectionType::HANDSHAKING },
            ) && final(self).next_token() == old(self).next_token() + 1,
    {
        if self.unique_token == usize::MAX {
            return None;
        }
        let token: usize = next(&mut self.unique_token);
        table_insert(&mut self.connections, token, NetworkClient::new());
        Some(token)
    }

    /// One round of the accept loop. An accepted connection is taken into
    /// the table and is to be registered under its token; with nothing
    /// pending the loop is done; a failed attempt gives the event loop up,
    /// and so does a connection for which no token is left.
    pub fn on_accept(&mut self, result: AcceptResult) -> (step: AcceptStep)
        requires
            old(self).wf(),
        ensures
            final(self).wf(),
            result == AcceptResult::Connection && old(self).next_token() < usize::MAX ==> step
                == AcceptStep::Register(old(self).next_token()) && !old(self)@.contains_key(
                old(self).next_token(),
            ) && final(self)@ == old(self)@.insert(
                old(self).next_token(),
                NetworkClient { conn_type: ConnectionType::HANDSHAKING },
            ) && final(self).next_token() == old(self).next_token() + 1,
            !(result == AcceptResult::Connection && old(self).next_token() < usize::MAX) ==> step
                == (if result == AcceptResult::WouldBlock {
                AcceptStep::Done
            } else {
                AcceptStep::Abort
            }) && final(self)@ == old(self)@ && final(self).next_token() == old(
                self).next_token(),
    {
        match result {
            AcceptResult::Connection => match self.accept() {
                Some(token) => AcceptStep::Register(token),
                None => AcceptStep::Abort,
            },
            AcceptResult::WouldBlock => AcceptStep::Done,
            AcceptResult::Failed => AcceptStep::Abort,
        }
    }

    /// The stage of the connection under `token`, if there is one.
    pub fn stage(&self, token: usize) -> (stage: Option<ConnectionType>)
        ensures
            stage == (if self@.contains_key(token) {
                Some(self@[token].conn_type)
            } else {
                None::<ConnectionType>
            }),
    {
        match table_get(&self.connections, token) {
            Some(conn) => Some(conn.conn_type),
            None => None,
        }
    }

    /// Takes the connection under `token` out of the table. Where there is
    /// none, nothing happens. Says whether there was one.
    pub fn remove(&mut self, token: usize) -> (removed: bool)
        requires
            old(self).wf(),
        ensures
            final(self).wf(),
            removed == old(self)@.contains_key(token),
            final(self)@ == old(self)@.remove(token),
            final(self).next_token() == old(self).next_token(),
    {
        table_remove(&mut self.connections, token).is_some()
    }

    /// Handles one readiness event of the connection under `token`. An
    /// event for a token that the table does not hold is ignored. The
    /// handler of the connection's stage decides; where it asks to close,
    /// the entry leaves the table, and the result says so.
    pub fn dispatch(
        &mut self,
        token: usize,
        event: &Readiness,
        input: SResult<ReadOutcome>,
        status_json: &str,
        out: &mut Vec<u8>,
    ) -> (closed: bool)
        requires
            old(self).wf(),
            old(self)@.contains_key(token) && old(self)@[token].conn_type == ConnectionType::STATUS
                && asks_for_status(*event, input) ==> encode_utf8(status_json@).len()
                <= MAX_STATUS_BYTES,
        ensures
            final(self).wf(),
            final(self).next_token() == old(self).next_token(),
            !old(self)@.contains_key(token) ==> !closed && final(self)@ == old(self)@ && final(out)@ == old(out)@,
            old(self)@.contains_key(token) ==> closed == dispatch_closes(
                old(self)@[token].conn_type,
                *event,
                input,
            ) && final(out)@ == old(out)@ + dispatch_reply(
                old(self)@[token].conn_type,
                *event,
                input,
                status_json@,
            ) && final(self)@ == (if closed {
                old(self)@.remove(token)
            } else {
                old(self)@.insert(
                    token,
                    NetworkClient {
                        conn_type: dispatch_stage(old(self)@[token].conn_type, *event, input),
                    },
                )
            }),
    {
        let mut conn: NetworkClient = match table_get(&self.connections, token) {
            Some(conn) => conn,
            None => {
                return false;
            },
        };
        proof {
            assert(old(out)@ + Seq::<u8>::empty() =~= old(out)@);
        }
        let answer: SResult<bool> = match conn.conn_type {
            ConnectionType::HANDSHAKING => handshaking(&mut conn, event, input),
            ConnectionType::STATUS => status_handler(&mut conn, event, input, status_json, out),
        };
        let done: bool = match answer {
            Ok(close) => close,
            Err(_) => false,
        };
        if done {
            table_remove(&mut self.connections, token);
        } else {
            table_insert(&mut self.connections, token, conn);
        }
        done
    }
}

/// Removal is idempotent: to remove a token a second time changes nothing,
/// and a table that was in order stays so; to remove a token that the table
/// does not hold changes nothing either.
pub proof fn law_removal_idempotent(entries: Map<usize, NetworkClient>, next: usize, token: usize)
    requires
        tokens_below(entries, next),
    ensures
        entries.remove(token).remove(token) == entries.remove(token),
        tokens_below(entries.remove(token), next),
        !entries.contains_key(token) ==> entries.remove(token) == entries,
{
    assert(entries.remove(token).remove(token) =~= entries.remove(token));
    if !entries.contains_key(token) {
        assert(entries.remove(token) =~= entries);
    }
}

/// A connection is closed over its socket alone: an event closes it exactly
/// when its handler acts on the event and the read failed or met the end of
/// the stream. Nothing that a client sends closes it.
pub proof fn law_closed_only_by_the_socket(
    stage: ConnectionType,
    event: Readiness,
    input: SResult<ReadOutcome>,
)
    ensures
        dispatch_closes(stage, event, input) <==> (match stage {
            ConnectionType::HANDSHAKING => handshaking_acts(event),
            ConnectionType::STATUS => status_acts(event),
        }) && (input is Err || input == Ok::<ReadOutcome, SimpleError>(ReadOutcome::EndOfStream)),
{
}

/// To remove a connection touches no other: every other token maps to what
/// it mapped to before, no token is added, and the table stays in order.
pub proof fn law_removal_keeps_the_others(
    entries: Map<usize, NetworkClient>,
    next: usize,
    token: usize,
    other: usize,
)
    requires
        tokens_below(entries, next),
        other != token,
    ensures
        !entries.remove(token).contains_key(token),
        entries.remove(token).contains_key(other) == entries.contains_key(other),
        entries.contains_key(other) ==> entries.remove(token)[other] == entries[other],
        tokens_below(entries.remove(token), next),
{
}

/// Shutdown: once a shutdown was asked for, the next iteration stops before
/// it polls, and the run state that it reports is "stopped".
pub proof fn law_shutdown_stops_the_loop()
    ensures
        shutdown_step(true) == LoopStep::Stop,
        shutdown_step(false) == LoopStep::Poll,
        !runs_after(LoopStep::Stop),
        runs_after(LoopStep::Poll),
{
}

} // verus!
