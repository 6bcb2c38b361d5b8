//! Where the client connects.

use crate::text::{decimal, decimal_text};
use vstd::prelude::*;
use vstd::string::StringExecFns;

verus! {

/// How the frames of a session are encoded.
#[derive(Debug, Clone, Copy, PartialEq, Eq, Structural)]
pub enum Encoding {
    /// A message-type id and a protobuf payload, in a binary message.
    Protobuf,
    /// A JSON envelope, in a text message.
    Json,
}

/// The endpoints of the cTrader Open API.
pub struct Endpoints;

impl Endpoints {
    /// Where a trader grants an application access.
    pub const AUTH_URI: &'static str = "https://openapi.ctrader.com/apps/auth";

    /// Where an application trades a code or a refresh token for tokens.
    pub const TOKEN_URI: &'static str = "https://openapi.ctrader.com/apps/token";

    /// The demo host, over HTTPS.
    pub const DEMO_HOST_URI: &'static str = "https://demo.ctraderapi.com";

    /// The demo host, over a secure WebSocket.
    pub const DEMO_HOST_WS_URI: &'static str = "wss://demo.ctraderapi.com";

    /// The live host, over a secure WebSocket.
    pub const LIVE_HOST_WS_URI: &'static str = "wss://live.ctraderapi.com";

    /// The live host, over HTTPS.
    pub const LIVE_HOST_URI: &'static str = "https://live.ctraderapi.com";

    /// The port that speaks JSON.
    pub const JSON_PORT: usize = 5036;

    /// The port that speaks protobuf.
    pub const PROTOBUF_PORT: usize = 5035;

    /// The address of the trading socket of a deployment, for an encoding.
    pub fn resolve(is_demo: bool, encoding: Encoding) -> (url: String)
        ensures
            url@ == endpoint_url(is_demo, encoding),
    {
        let host = if is_demo {
            Endpoints::DEMO_HOST_WS_URI
        } else {
            Endpoints::LIVE_HOST_WS_URI
        };
        let port = match encoding {
            Encoding::Protobuf => Endpoints::PROTOBUF_PORT,
            Encoding::Json => Endpoints::JSON_PORT,
        };
        let mut url = String::from_str(host);
        url.append(":");
        proof {
            reveal_strlit(":");
        }
        let digits = decimal_text(port as u64);
        url.append(digits.as_str());
        url
    }
}

/// The host of the trading socket of a deployment.
pub open spec fn endpoint_host(is_demo: bool) -> Seq<char> {
    if is_demo {
        "wss://demo.ctraderapi.com"@
    } else {
        "wss://live.ctraderapi.com"@
    }
}

/// The number of the port on which the trading socket speaks an encoding.
pub open spec fn endpoint_port(encoding: Encoding) -> nat {
    match encoding {
        Encoding::Protobuf => 5035,
        Encoding::Json => 5036,
    }
}

/// The address of the trading socket: the host, a colon, the port in decimal.
pub open spec fn endpoint_url(is_demo: bool, encoding: Encoding) -> Seq<char> {
    endpoint_host(is_demo) + seq![':'] + decimal(endpoint_port(encoding))
}

} // verus!
