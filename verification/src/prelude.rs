//! What most programs need from the library.

pub use crate::client::connector::{ConnectionState, EstablishAction};
pub use crate::client::endpoint::{Encoding, Endpoints};
pub use crate::client::request::{ProtoOaOrderType, ProtoOaQuoteType, ProtoOaTradeSide};
pub use crate::codec::OutboundFrame;
pub use crate::traits::AppState;
pub use crate::types::{Auth, CTraderClient, TokenResponse};
