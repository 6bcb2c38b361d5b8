//! The listener: what it makes of each thing that it reads.
//!
//! The program runs the task: it reads from the read half and hands over what
//! it read. The listener classifies it, says what to record, and says whether
//! to read on.

use crate::text::{decimal, decimal_text};
use vstd::prelude::*;
use vstd::string::StringExecFns;

verus! {

/// What arrived on the socket.
#[derive(Debug, Clone)]
pub enum InboundEvent {
    /// A text message.
    Text(String),
    /// A binary message.
    Binary(Vec<u8>),
    /// The peer closes the connection.
    Close,
    /// Anything else: a ping, a pong, a raw frame.
    Other,
}

/// How much a record matters.
#[derive(Debug, Clone, Copy, PartialEq, Eq, Structural)]
pub enum Severity {
    Info,
    Warn,
    Error,
}

/// What the listener makes of one read.
#[derive(Debug, Clone)]
pub struct ListenerStep {
    /// How much the record matters.
    pub severity: Severity,
    /// What to record.
    pub record: String,
    /// Whether to read on.
    pub proceed: bool,
}

/// How much the record of a read matters.
pub open spec fn severity_of(incoming: Result<InboundEvent, String>) -> Severity {
    match incoming {
        Ok(InboundEvent::Close) => Severity::Warn,
        Ok(_) => Severity::Info,
        Err(_) => Severity::Error,
    }
}

/// What to record of a read.
pub open spec fn record_of(incoming: Result<InboundEvent, String>) -> Seq<char> {
    match incoming {
        Ok(InboundEvent::Text(text)) => "Text message: "@ + text@,
        Ok(InboundEvent::Binary(data)) => "Binary message: "@ + decimal(data@.len()) + " bytes"@,
        Ok(InboundEvent::Close) => "Connection closed"@,
        Ok(InboundEvent::Other) => "Other message type"@,
        Err(reason) => "Error reading message: "@ + reason@,
    }
}

/// Whether the listener reads on after a read: it stops when the peer closes
/// the connection, and at nothing else. A read that failed is recorded and the
/// listener reads on.
pub open spec fn proceeds_after(incoming: Result<InboundEvent, String>) -> bool {
    !(incoming matches Ok(InboundEvent::Close))
}

/// Takes one read: a message, or the reason why the read failed.
pub fn on_message(incoming: Result<InboundEvent, String>) -> (step: ListenerStep)
    ensures
        step.severity == severity_of(incoming),
        step.record@ == record_of(incoming),
        step.proceed == proceeds_after(incoming),
{
    match incoming {
        Ok(InboundEvent::Text(text)) => {
            let mut record = String::from_str("Text message: ");
            record.append(text.as_str());
            ListenerStep { severity: Severity::Info, record, proceed: true }
        },
        Ok(InboundEvent::Binary(data)) => {
            let mut record = String::from_str("Binary message: ");
            let length = decimal_text(data.len() as u64);
            record.append(length.as_str());
            record.append(" bytes");
            ListenerStep { severity: Severity::Info, record, proceed: true }
        },
        Ok(InboundEvent::Close) => ListenerStep {
            severity: Severity::Warn,
            record: String::from_str("Connection closed"),
            proceed: false,
        },
        Ok(InboundEvent::Other) => ListenerStep {
            severity: Severity::Info,
            record: String::from_str("Other message type"),
            proceed: true,
        },
        Err(reason) => {
            let mut record = String::from_str("Error reading message: ");
            record.append(reason.as_str());
            ListenerStep { severity: Severity::Error, record, proceed: true }
        },
    }
}

} // verus!
