//! OAuth endpoint that trades a refresh token for a new access token.
use vstd::prelude::*;
use vstd::string::StringExecFns;

use crate::objects::oauth::{AccessToken, Message};

verus! {

/// Where refresh requests go.
pub const URL: &'static str = "https://open-api.tiktok.com/oauth/refresh_token/";

/// The `grant_type` query value of a refresh request.
pub const GRANT_TYPE: &'static str = "refresh_token";

/// A refresh request: the app's client key and the refresh token to trade.
#[derive(Debug, Clone)]
pub struct RefreshTokenEndpoint {
    pub client_key: String,
    pub refresh_token: String,
}

impl RefreshTokenEndpoint {
    /// A refresh request for `refresh_token`, made by the app `client_key`.
    pub fn new(client_key: &str, refresh_token: &str) -> (r: Self)
        ensures
            r.client_key@ == client_key@,
            r.refresh_token@ == refresh_token@,
    {
        RefreshTokenEndpoint {
            client_key: String::from_str(client_key),
            refresh_token: String::from_str(refresh_token),
        }
    }
}

/// The body of a successful refresh response.
#[derive(Debug, Clone)]
pub struct RefreshTokenResponseBody {
    pub data: AccessToken,
    pub message: Message,
}

} // verus!
