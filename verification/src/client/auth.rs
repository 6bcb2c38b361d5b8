//! The credentials, and the addresses of the OAuth endpoints that go with
//! them.

use crate::error::{CTraderError, CTraderResult};
use crate::types::{Auth, TokenResponse};
use vstd::prelude::*;
use vstd::string::StringExecFns;

verus! {

/// The address at which a trader grants the application access.
pub open spec fn auth_uri(client_id: Seq<char>, redirect_url: Seq<char>) -> Seq<char> {
    "https://openapi.ctrader.com/apps/auth"@ + "?client_id="@ + client_id + "&redirect_uri="@
        + redirect_url + "&scope=trading"@
}

/// The address that trades an authorization code for tokens.
pub open spec fn token_uri(
    auth_code: Seq<char>,
    redirect_url: Seq<char>,
    client_id: Seq<char>,
    client_secret: Seq<char>,
) -> Seq<char> {
    "https://openapi.ctrader.com/apps/token"@ + "?grant_type=authorization_code&code="@ + auth_code
        + "&redirect_uri="@ + redirect_url + "&client_id="@ + client_id + "&client_secret="@
        + client_secret
}

/// The address that trades a refresh token for new tokens.
pub open spec fn refresh_uri(
    refresh_token: Seq<char>,
    client_id: Seq<char>,
    client_secret: Seq<char>,
) -> Seq<char> {
    "https://openapi.ctrader.com/apps/token"@ + "?grant_type=refresh_token&refresh_token="@
        + refresh_token + "&client_id="@ + client_id + "&client_secret="@ + client_secret
}

impl Auth {
    /// The credentials of an application.
    pub fn new(
        app_client_id: String,
        app_access_token: String,
        app_client_secret: String,
        app_redirect_url: String,
        refresh_token: String,
    ) -> (auth: Auth)
        ensures
            auth.ctrader_client_id == app_client_id,
            auth.ctrader_access_token == app_access_token,
            auth.ctrader_client_secret == app_client_secret,
            auth.ctrader_redirect_url == app_redirect_url,
            auth.ctrader_refresh_token == refresh_token,
    {
        Auth {
            ctrader_access_token: app_access_token,
            ctrader_refresh_token: refresh_token,
            ctrader_client_id: app_client_id,
            ctrader_client_secret: app_client_secret,
            ctrader_redirect_url: app_redirect_url,
        }
    }

    /// The address to which the application sends a trader to grant it access
    /// to trading.
    pub fn get_auth_uri(self) -> (uri: CTraderResult<String>)
        ensures
            uri matches Ok(text) && text@ == auth_uri(
                self.ctrader_client_id@,
                self.ctrader_redirect_url@,
            ),
    {
        let mut text = String::from_str("https://openapi.ctrader.com/apps/auth");
        text.append("?client_id=");
        text.append(self.ctrader_client_id.as_str());
        text.append("&redirect_uri=");
        text.append(self.ctrader_redirect_url.as_str());
        text.append("&scope=trading");
        Ok(text)
    }

    /// The address of the request that trades `auth_code` for tokens.
    pub fn get_token_uri(&self, auth_code: &str) -> (uri: String)
        ensures
            uri@ == token_uri(
                auth_code@,
                self.ctrader_redirect_url@,
                self.ctrader_client_id@,
                self.ctrader_client_secret@,
            ),
    {
        let mut text = String::from_str("https://openapi.ctrader.com/apps/token");
        text.append("?grant_type=authorization_code&code=");
        text.append(auth_code);
        text.append("&redirect_uri=");
        text.append(self.ctrader_redirect_url.as_str());
        text.append("&client_id=");
        text.append(self.ctrader_client_id.as_str());
        text.append("&client_secret=");
        text.append(self.ctrader_client_secret.as_str());
        text
    }

    /// Takes the outcome of a token exchange: the answer of the endpoint, or
    /// the reason why the exchange failed. A failed exchange is an error of
    /// the HTTP kind, with that reason; it is not tried again.
    pub fn token_result(outcome: Result<TokenResponse, String>) -> (result: CTraderResult<
        TokenResponse,
    >)
        ensures
            match outcome {
                Ok(answer) => result matches Ok(tokens) && tokens == answer,
                Err(reason) => result matches Err(CTraderError::HttpRequest(text)) && text
                    == reason,
            },
    {
        match outcome {
            Ok(answer) => Ok(answer),
            Err(reason) => Err(CTraderError::HttpRequest(reason)),
        }
    }

    /// The address of the request that trades `refresh_token` for new tokens.
    pub fn refresh_token_uri(&self, refresh_token: &str) -> (uri: String)
        ensures
            uri@ == refresh_uri(
                refresh_token@,
                self.ctrader_client_id@,
                self.ctrader_client_secret@,
            ),
    {
        let mut text = String::from_str("https://openapi.ctrader.com/apps/token");
        text.append("?grant_type=refresh_token&refresh_token=");
        text.append(refresh_token);
        text.append("&client_id=");
        text.append(self.ctrader_client_id.as_str());
        text.append("&client_secret=");
        text.append(self.ctrader_client_secret.as_str());
        text
    }
}

} // verus!
