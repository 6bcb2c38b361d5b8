//! The heartbeat: what it sends, how often, and when it stops.
//!
//! The program runs the task: it waits for as long as the next write is due
//! in, takes the lock on the write half, writes the message, releases the
//! lock, and tells the heartbeat how the write ended. The heartbeat decides
//! whether there is a next round, and when.

use crate::client::endpoint::Encoding;
use crate::client::request::{begin_payload, payload_type_field};
use crate::codec::{binary_frame, encode_binary};
use crate::error::CTraderError;
use vstd::prelude::*;
use vstd::string::StringExecFns;

verus! {

/// The seconds between two heartbeats.
pub const HEARTBEAT_INTERVAL_SECS: u64 = 30;

/// The id of the message type of a heartbeat.
pub const HEARTBEAT_EVENT: u16 = 51;

/// A message for the socket: a text message or a binary one.
#[derive(Debug, Clone)]
pub enum OutboundMessage {
    Text(String),
    Binary(Vec<u8>),
}

/// The heartbeat task before one of its writes.
#[derive(Debug, Clone, Copy, PartialEq, Eq, Structural)]
pub struct Heartbeat {
    /// The heartbeats that were written so far. The count stops at the largest
    /// number that it can hold.
    pub sent: u64,
    /// The seconds to wait before the next write: none before the first, and
    /// `HEARTBEAT_INTERVAL_SECS` before every other.
    pub due_in_secs: u64,
}

/// The count of heartbeats after one more was written.
pub open spec fn one_more(sent: u64) -> u64 {
    if sent < u64::MAX {
        (sent + 1) as u64
    } else {
        sent
    }
}

/// The task before its first write, which is due at once.
pub open spec fn fresh() -> Heartbeat {
    Heartbeat { sent: 0, due_in_secs: 0 }
}

/// The task after a write that succeeded: one more heartbeat is written, and
/// the next is due after the interval.
pub open spec fn after_write(task: Heartbeat) -> Heartbeat {
    Heartbeat { sent: one_more(task.sent), due_in_secs: HEARTBEAT_INTERVAL_SECS }
}

/// What a task has done after a run of writes.
pub struct HeartbeatRun {
    /// The writes that succeeded.
    pub sent: nat,
    /// The seconds spent waiting before the writes that were made.
    pub waited_secs: nat,
    /// Whether the task has ended.
    pub ended: bool,
}

/// The run of a task whose writes end as `outcomes` say, in order. Before each
/// write the task waits for as long as the write is due in. After a write
/// that failed it makes no other.
pub open spec fn heartbeat_run(task: Heartbeat, outcomes: Seq<bool>) -> HeartbeatRun
    decreases outcomes.len(),
{
    if outcomes.len() == 0 {
        HeartbeatRun { sent: 0, waited_secs: 0, ended: false }
    } else if outcomes[0] {
        let rest = heartbeat_run(after_write(task), outcomes.skip(1));
        HeartbeatRun {
            sent: rest.sent + 1,
            waited_secs: task.due_in_secs as nat + rest.waited_secs,
            ended: rest.ended,
        }
    } else {
        HeartbeatRun { sent: 0, waited_secs: task.due_in_secs as nat, ended: true }
    }
}

/// The message that keeps a session alive: on a protobuf session, the frame
/// of a heartbeat event; on a JSON session, a short text.
pub fn send_heartbeat(encoding: Encoding) -> (message: OutboundMessage)
    ensures
        match encoding {
            Encoding::Protobuf => message matches OutboundMessage::Binary(bytes) && bytes@
                == binary_frame(HEARTBEAT_EVENT, payload_type_field(HEARTBEAT_EVENT)),
            Encoding::Json => message matches OutboundMessage::Text(text) && text@
                == "heartbeat"@,
        },
{
    match encoding {
        Encoding::Protobuf => {
            let payload = begin_payload(HEARTBEAT_EVENT);
            OutboundMessage::Binary(encode_binary(HEARTBEAT_EVENT, payload.as_slice()))
        },
        Encoding::Json => OutboundMessage::Text(String::from_str("heartbeat")),
    }
}

impl Heartbeat {
    /// The task before its first write, which is due at once.
    pub fn new() -> (task: Heartbeat)
        ensures
            task == fresh(),
    {
        Heartbeat { sent: 0, due_in_secs: 0 }
    }

    /// Takes the outcome of one write. After a write that succeeded the task
    /// goes on, and its next write is due in `HEARTBEAT_INTERVAL_SECS`. A
    /// write that failed ends the task: the error is handed back for the
    /// program to act on, and there is no task left to go on with. The task
    /// does not write again, and does not reconnect.
    pub fn on_send(self, outcome: Result<(), CTraderError>) -> (next: Result<
        Heartbeat,
        CTraderError,
    >)
        ensures
            match outcome {
                Ok(_) => next == Ok::<Heartbeat, CTraderError>(after_write(self)),
                Err(error) => next matches Err(surfaced) && surfaced == error,
            },
    {
        match outcome {
            Ok(_) => {
                let sent = if self.sent < u64::MAX {
                    self.sent + 1
                } else {
                    self.sent
                };
                Ok(Heartbeat { sent, due_in_secs: HEARTBEAT_INTERVAL_SECS })
            },
            Err(error) => Err(error),
        }
    }
}

/// The cadence of the heartbeat: while every write succeeds the task goes on,
/// and the wait before its writes is what the first was due in and one
/// interval for each write after the first. For a task that is new the first
/// write goes at once, so `rounds` heartbeats take `rounds - 1` intervals of
/// waiting.
pub proof fn lemma_heartbeat_cadence(task: Heartbeat, rounds: nat)
    requires
        rounds >= 1,
    ensures
        heartbeat_run(task, Seq::new(rounds, |i: int| true)).sent == rounds,
        heartbeat_run(task, Seq::new(rounds, |i: int| true)).waited_secs == task.due_in_secs + (
        rounds - 1) * HEARTBEAT_INTERVAL_SECS,
        !heartbeat_run(task, Seq::new(rounds, |i: int| true)).ended,
        task == fresh() ==> heartbeat_run(task, Seq::new(rounds, |i: int| true)).waited_secs == (
        rounds - 1) * HEARTBEAT_INTERVAL_SECS,
    decreases rounds,
{
    let outcomes = Seq::new(rounds, |i: int| true);
    let rest = heartbeat_run(after_write(task), outcomes.skip(1));
    if rounds > 1 {
        assert(outcomes.skip(1) =~= Seq::new((rounds - 1) as nat, |i: int| true));
        lemma_heartbeat_cadence(after_write(task), (rounds - 1) as nat);
    }
}

/// The end of the heartbeat: a task whose first `successes` writes succeed and
/// whose next write fails has written exactly `successes` heartbeats when it
/// ends, and has waited one interval before each write after the first.
pub proof fn lemma_heartbeat_ends_at_failure(task: Heartbeat, successes: nat)
    ensures
        heartbeat_run(task, Seq::new(successes, |i: int| true).push(false)).sent == successes,
        heartbeat_run(task, Seq::new(successes, |i: int| true).push(false)).ended,
        heartbeat_run(task, Seq::new(successes, |i: int| true).push(false)).waited_secs
            == task.due_in_secs + successes * HEARTBEAT_INTERVAL_SECS,
    decreases successes,
{
    let outcomes = Seq::new(successes, |i: int| true).push(false);
    if successes > 0 {
        assert(outcomes.skip(1) =~= Seq::new((successes - 1) as nat, |i: int| true).push(false));
        lemma_heartbeat_ends_at_failure(after_write(task), (successes - 1) as nat);
    }
}

/// The task ends for one reason only: a write failed.
pub proof fn lemma_heartbeat_ends_only_on_failure(task: Heartbeat, outcomes: Seq<bool>)
    ensures
        heartbeat_run(task, outcomes).ended <==> exists|i: int|
            0 <= i < outcomes.len() && !outcomes[i],
    decreases outcomes.len(),
{
    if outcomes.len() > 0 && outcomes[0] {
        let rest = outcomes.skip(1);
        lemma_heartbeat_ends_only_on_failure(after_write(task), rest);
        if heartbeat_run(task, outcomes).ended {
            let failed = choose|i: int| 0 <= i < rest.len() && !rest[i];
            assert(!outcomes[failed + 1]);
        }
        if exists|i: int| 0 <= i < outcomes.len() && !outcomes[i] {
            let failed = choose|i: int| 0 <= i < outcomes.len() && !outcomes[i];
            assert(!rest[failed - 1]);
        }
    }
}

} // verus!
