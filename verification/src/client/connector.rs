//! The life of a connection: which state a session is in, and how each thing
//! that happens on the transport moves it.
//!
//! The program owns the socket. It tells the state what happened and does what
//! the answer says; nothing here waits or touches the network.

use crate::error::{ConnectorError, ConnectorResult};
use vstd::prelude::*;

verus! {

/// The seconds that a session waits after a failed attempt to open the
/// transport before it tries again.
pub const CONNECT_RETRY_SECS: u64 = 5;

/// The state of a session's connection.
#[derive(Debug, Clone, Copy, PartialEq, Eq, Structural)]
pub enum ConnectionState {
    /// The transport is being opened, or will be after a wait.
    Connecting,
    /// The socket is open.
    Connected,
    /// There is no socket: it was closed, or it failed.
    Disconnected,
    /// The peer broke the protocol. Nothing leads out of this state.
    Failed,
}

/// What the program does after an attempt to open the transport.
#[derive(Debug, Clone, Copy, PartialEq, Eq, Structural)]
pub enum EstablishAction {
    /// Split the socket, and start the listener and the heartbeat.
    Start,
    /// Wait this many seconds, then open the transport again.
    RetryAfter(u64),
    /// Give up: the session has failed.
    GiveUp,
}

/// The state after a request to close the socket.
pub open spec fn after_disconnect(state: ConnectionState) -> ConnectionState {
    match state {
        ConnectionState::Failed => ConnectionState::Failed,
        _ => ConnectionState::Disconnected,
    }
}

/// The state after one attempt to open the transport, where a failed attempt
/// is final.
pub open spec fn after_connect(state: ConnectionState, opened: bool) -> ConnectionState {
    match state {
        ConnectionState::Failed => ConnectionState::Failed,
        _ => if opened {
            ConnectionState::Connected
        } else {
            ConnectionState::Disconnected
        },
    }
}

/// The state after the socket was closed, by the peer or by an error on a read
/// or a write.
pub open spec fn after_close(state: ConnectionState) -> ConnectionState {
    match state {
        ConnectionState::Connected => ConnectionState::Disconnected,
        _ => state,
    }
}

/// The state after the peer broke the protocol.
pub open spec fn after_violation(state: ConnectionState) -> ConnectionState {
    match state {
        ConnectionState::Connected => ConnectionState::Failed,
        _ => state,
    }
}

/// The state after one attempt to open the transport, where a failed attempt
/// is followed by another.
pub open spec fn after_attempt(state: ConnectionState, opened: bool) -> ConnectionState {
    match state {
        ConnectionState::Failed => ConnectionState::Failed,
        _ => if opened {
            ConnectionState::Connected
        } else {
            ConnectionState::Connecting
        },
    }
}

/// What the program does after one attempt to open the transport.
pub open spec fn action_after_attempt(state: ConnectionState, opened: bool) -> EstablishAction {
    match state {
        ConnectionState::Failed => EstablishAction::GiveUp,
        _ => if opened {
            EstablishAction::Start
        } else {
            EstablishAction::RetryAfter(CONNECT_RETRY_SECS)
        },
    }
}

/// Where a session stands after a run of attempts to open the transport.
pub struct EstablishRun {
    /// The state of the connection.
    pub state: ConnectionState,
    /// How many times the transport was asked to open.
    pub attempts: nat,
    /// The seconds spent waiting between attempts.
    pub waited_secs: nat,
}

/// The run of a session that starts in `state` and meets a transport whose
/// attempts end as `outcomes` say, in order. The session stops asking once it
/// is connected or has failed.
pub open spec fn establish_run(state: ConnectionState, outcomes: Seq<bool>) -> EstablishRun
    decreases outcomes.len(),
{
    if outcomes.len() == 0 || state == ConnectionState::Connected || state
        == ConnectionState::Failed {
        EstablishRun { state, attempts: 0, waited_secs: 0 }
    } else {
        let rest = establish_run(after_attempt(state, outcomes[0]), outcomes.skip(1));
        EstablishRun {
            state: rest.state,
            attempts: rest.attempts + 1,
            waited_secs: rest.waited_secs + match action_after_attempt(state, outcomes[0]) {
                EstablishAction::RetryAfter(secs) => secs as nat,
                _ => 0,
            },
        }
    }
}

/// The outcomes of a transport that refuses `failures` attempts and accepts
/// the next one.
pub open spec fn refused_then_opened(failures: nat) -> Seq<bool> {
    Seq::new(failures, |i: int| false).push(true)
}

impl ConnectionState {
    /// The state of a session that is about to open its transport.
    pub fn new() -> (state: ConnectionState)
        ensures
            state == ConnectionState::Connecting,
    {
        ConnectionState::Connecting
    }

    /// Whether requests can be written.
    pub fn is_connected(&self) -> (connected: bool)
        ensures
            connected == (*self == ConnectionState::Connected),
    {
        matches!(self, ConnectionState::Connected)
    }

    /// Records one attempt to open the transport, `opened` saying how it
    /// ended. A failed attempt is final: the error goes to the caller, who
    /// decides whether to try again.
    pub fn connect(&mut self, opened: bool) -> (result: ConnectorResult<()>)
        ensures
            *final(self) == after_connect(*old(self), opened),
            result is Ok <==> *final(self) == ConnectionState::Connected,
            result is Err ==> result == Err::<(), ConnectorError>(ConnectorError::ConnectFailed),
    {
        match *self {
            ConnectionState::Failed => Err(ConnectorError::ConnectFailed),
            _ => {
                if opened {
                    *self = ConnectionState::Connected;
                    Ok(())
                } else {
                    *self = ConnectionState::Disconnected;
                    Err(ConnectorError::ConnectFailed)
                }
            },
        }
    }

    /// Records a request to close the socket. It never fails; where there is
    /// no socket it changes nothing.
    pub fn disconnect(&mut self) -> (result: ConnectorResult<()>)
        ensures
            result is Ok,
            *final(self) == after_disconnect(*old(self)),
    {
        match *self {
            ConnectionState::Failed => {},
            _ => {
                *self = ConnectionState::Disconnected;
            },
        }
        Ok(())
    }

    /// Closes the socket and records one attempt to open a new one. A failed
    /// attempt is final, as in `connect`.
    pub fn reconnect(&mut self, opened: bool) -> (result: ConnectorResult<()>)
        ensures
            *final(self) == after_connect(after_disconnect(*old(self)), opened),
            result is Ok <==> *final(self) == ConnectionState::Connected,
            result is Err ==> result == Err::<(), ConnectorError>(ConnectorError::ConnectFailed),
    {
        match self.disconnect() {
            Ok(_) => self.connect(opened),
            Err(error) => Err(error),
        }
    }

    /// Records that the socket was closed, by the peer or by an error on a read
    /// or a write.
    pub fn on_close(&mut self)
        ensures
            *final(self) == after_close(*old(self)),
    {
        match *self {
            ConnectionState::Connected => {
                *self = ConnectionState::Disconnected;
            },
            _ => {},
        }
    }

    /// Records that the peer broke the protocol.
    pub fn on_violation(&mut self)
        ensures
            *final(self) == after_violation(*old(self)),
    {
        match *self {
            ConnectionState::Connected => {
                *self = ConnectionState::Failed;
            },
            _ => {},
        }
    }

    /// Records one attempt to open the transport while the session is being
    /// established, and says what to do next. A failed attempt is followed by
    /// another after `CONNECT_RETRY_SECS`, however many have failed before.
    pub fn on_attempt(&mut self, opened: bool) -> (action: EstablishAction)
        ensures
            *final(self) == after_attempt(*old(self), opened),
            action == action_after_attempt(*old(self), opened),
    {
        match *self {
            ConnectionState::Failed => EstablishAction::GiveUp,
            _ => {
                if opened {
                    *self = ConnectionState::Connected;
                    EstablishAction::Start
                } else {
                    *self = ConnectionState::Connecting;
                    EstablishAction::RetryAfter(CONNECT_RETRY_SECS)
                }
            },
        }
    }
}

/// A second request to close the socket, right after a first, changes nothing:
/// closing is idempotent.
pub proof fn lemma_disconnect_idempotent(state: ConnectionState)
    ensures
        after_disconnect(after_disconnect(state)) == after_disconnect(state),
{
}

/// Nothing leads out of the failed state.
pub proof fn lemma_failed_is_terminal(opened: bool)
    ensures
        after_disconnect(ConnectionState::Failed) == ConnectionState::Failed,
        after_connect(ConnectionState::Failed, opened) == ConnectionState::Failed,
        after_attempt(ConnectionState::Failed, opened) == ConnectionState::Failed,
        after_close(ConnectionState::Failed) == ConnectionState::Failed,
        after_violation(ConnectionState::Failed) == ConnectionState::Failed,
{
}

/// A session that is being established goes on asking for as long as the
/// transport refuses: after any number of refusals it is still connecting, has
/// asked once for each, and has waited `CONNECT_RETRY_SECS` after each. There
/// is no last attempt and the wait does not grow.
pub proof fn lemma_establish_keeps_trying(state: ConnectionState, failures: nat)
    requires
        state == ConnectionState::Connecting || state == ConnectionState::Disconnected,
    ensures
        establish_run(state, Seq::new(failures, |i: int| false)).state == (if failures == 0 {
            state
        } else {
            ConnectionState::Connecting
        }),
        establish_run(state, Seq::new(failures, |i: int| false)).attempts == failures,
        establish_run(state, Seq::new(failures, |i: int| false)).waited_secs == failures
            * CONNECT_RETRY_SECS,
    decreases failures,
{
    let outcomes = Seq::new(failures, |i: int| false);
    if failures > 0 {
        let rest = establish_run(after_attempt(state, outcomes[0]), outcomes.skip(1));
        assert(outcomes.skip(1) =~= Seq::new((failures - 1) as nat, |i: int| false));
        lemma_establish_keeps_trying(ConnectionState::Connecting, (failures - 1) as nat);
    }
}

/// A session that is being established, or has no socket, and meets a
/// transport that refuses `failures` attempts and accepts the next one is
/// connected after exactly `failures + 1` attempts, and has waited
/// `CONNECT_RETRY_SECS` after each refusal and no longer.
pub proof fn lemma_establish_liveness(state: ConnectionState, failures: nat)
    requires
        state == ConnectionState::Connecting || state == ConnectionState::Disconnected,
    ensures
        establish_run(state, refused_then_opened(failures)).state == ConnectionState::Connected,
        establish_run(state, refused_then_opened(failures)).attempts == failures + 1,
        establish_run(state, refused_then_opened(failures)).waited_secs == failures
            * CONNECT_RETRY_SECS,
        establish_run(state, refused_then_opened(failures)).waited_secs <= (failures + 1)
            * CONNECT_RETRY_SECS,
    decreases failures,
{
    let outcomes = refused_then_opened(failures);
    let rest = establish_run(after_attempt(state, outcomes[0]), outcomes.skip(1));
    if failures > 0 {
        assert(outcomes.skip(1) =~= refused_then_opened((failures - 1) as nat));
        lemma_establish_liveness(ConnectionState::Connecting, (failures - 1) as nat);
    }
}

} // verus!
