//! Objects of the OAuth API.
use vstd::prelude::*;

verus! {

/// Lifetime of an access token, in seconds, when the server gives none.
pub const EXPIRES_IN_DEFAULT: usize = 86400;

/// Lifetime of a refresh token, in seconds, when the server gives none.
pub const REFRESH_EXPIRES_IN_DEFAULT: usize = 31536000;

/// An access token with its refresh token and lifetimes.
#[derive(Debug, Clone)]
pub struct AccessToken {
    pub open_id: String,
    pub scope: String,
    pub access_token: String,
    pub expires_in: i64,
    pub refresh_token: String,
    pub refresh_expires_in: i64,
}

/// An error reported by the OAuth API.
#[derive(Debug, Clone)]
pub struct Error {
    pub captcha: Option<String>,
    pub desc_url: Option<String>,
    pub description: Option<String>,
    pub error_code: isize,
}

/// The `message` field of an OAuth response: `success`, `error`, or any other
/// text, kept as it came.
#[derive(Debug, Clone, PartialEq, Eq)]
pub enum Message {
    Success,
    ConstantError,
    Other(String),
}

/// The body of a failed OAuth response.
#[derive(Debug, Clone)]
pub struct ResponseErrorBody {
    pub data: Error,
    pub message: Message,
}

} // verus!
