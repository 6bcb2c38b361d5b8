//! The errors of the client.

use std::time::Duration;
use vstd::prelude::*;
use vstd::std_specs::convert::FromSpecImpl;

verus! {

/// `tungstenite::Error`, the error of the WebSocket layer. The library carries
/// it and does not look inside.
#[verifier::external_type_specification]
#[verifier::external_body]
pub struct ExWebSocketError(tokio_tungstenite::tungstenite::Error);

/// `serde_json::Error`, the error of JSON parsing and printing. The library
/// carries it and does not look inside.
#[verifier::external_type_specification]
#[verifier::external_body]
pub struct ExJsonError(serde_json::Error);

/// `std::io::Error`. The library carries it and does not look inside.
#[verifier::external_type_specification]
#[verifier::external_body]
pub struct ExIoError(std::io::Error);

/// What can go wrong in the client.
#[derive(Debug)]
pub enum CTraderError {
    /// The socket failed to connect, to read or to write.
    WebSocket(Box<tokio_tungstenite::tungstenite::Error>),
    /// A module was asked for that does not exist.
    ModuleNotFound(String),
    /// The token endpoint could not be reached or refused the request.
    HttpRequest(String),
    /// Anything else.
    Other(String),
    /// A JSON text could not be parsed, or a value could not be printed.
    Serde(serde_json::Error),
    /// An input or output operation failed.
    Io(std::io::Error),
    /// The tracing subscriber could not be set up.
    Tracing(String),
    /// A task did not finish within the time allowed.
    TimeoutError { task: String, duration: Duration },
}

/// What can go wrong in a connector.
#[derive(Debug, Clone, Copy, PartialEq, Eq, Structural)]
pub enum ConnectorError {
    /// The transport could not be opened.
    ConnectFailed,
}

pub type CTraderResult<T> = Result<T, CTraderError>;

pub type ConnectorResult<T> = Result<T, ConnectorError>;

impl From<serde_json::Error> for CTraderError {
    fn from(error: serde_json::Error) -> (converted: CTraderError) {
        CTraderError::Serde(error)
    }
}

impl FromSpecImpl<serde_json::Error> for CTraderError {
    open spec fn obeys_from_spec() -> bool {
        true
    }

    open spec fn from_spec(error: serde_json::Error) -> CTraderError {
        CTraderError::Serde(error)
    }
}

impl From<std::io::Error> for CTraderError {
    fn from(error: std::io::Error) -> (converted: CTraderError) {
        CTraderError::Io(error)
    }
}

impl FromSpecImpl<std::io::Error> for CTraderError {
    open spec fn obeys_from_spec() -> bool {
        true
    }

    open spec fn from_spec(error: std::io::Error) -> CTraderError {
        CTraderError::Io(error)
    }
}

} // verus!
