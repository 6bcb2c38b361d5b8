//! The data of a session.

use crate::client::connector::ConnectionState;
use vstd::prelude::*;

verus! {

/// The credentials of an application and of the trader who granted it access.
/// They do not change once the session has them; a new pair of tokens comes
/// with a new value.
#[derive(Debug, Clone)]
pub struct Auth {
    pub ctrader_access_token: String,
    pub ctrader_client_id: String,
    pub ctrader_client_secret: String,
    pub ctrader_redirect_url: String,
    pub ctrader_refresh_token: String,
}

/// A session with the trading gateway: the credentials, the address of the
/// socket and the state of the connection. The socket itself belongs to the
/// program, which writes the frames that the session builds.
#[derive(Debug, Clone)]
pub struct CTraderClient {
    /// The credentials that the requests carry.
    pub auth: Auth,
    /// The address of the trading socket.
    pub endpoint: String,
    /// The state of the connection.
    pub connection: ConnectionState,
}

/// What the token endpoint answers.
#[derive(Debug, Clone, Copy)]
pub struct TokenResponse;

} // verus!
