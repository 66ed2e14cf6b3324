//! Objects of the v2 API.
use vstd::prelude::*;

verus! {

/// The `error` object that every v2 response carries, success included.
#[derive(Debug, Clone)]
pub struct Error {
    pub code: ErrorCode,
    pub message: String,
    pub log_id: String,
}

/// The code of a v2 `error` object; codes this library does not name are
/// kept as they came.
#[derive(Debug, Clone, PartialEq, Eq)]
pub enum ErrorCode {
    /// The call succeeded (`ok` on the wire).
    Success,
    AccessTokenInvalid,
    InternalError,
    InvalidFileUpload,
    InvalidParams,
    RateLimitExceeded,
    ScopeNotAuthorized,
    ScopePermissionMissed,
    Other(String),
}

/// A user's profile; each field is present only when it was asked for.
#[derive(Debug, Clone)]
pub struct User {
    pub open_id: Option<String>,
    pub union_id: Option<String>,
    pub avatar_url: Option<String>,
    pub avatar_url_100: Option<String>,
    pub avatar_large_url: Option<String>,
    pub display_name: Option<String>,
    pub bio_description: Option<String>,
    pub profile_deep_link: Option<String>,
    pub is_verified: Option<bool>,
    pub follower_count: Option<i64>,
    pub following_count: Option<i64>,
    pub likes_count: Option<i64>,
}

} // verus!
