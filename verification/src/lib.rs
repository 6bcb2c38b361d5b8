//! A sans-I/O core of a client for the cTrader Open API.
//!
//! The library decides what goes on the wire and how a session reacts to what
//! happens on the socket; the program around it owns the socket, the timers
//! and the tasks.

pub mod client;
pub mod codec;
pub mod error;
pub mod json;
pub mod prelude;
pub mod text;
pub mod traits;
pub mod types;
pub mod wire;
