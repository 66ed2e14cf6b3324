//! v2 endpoint that reads the profile of the token's user.
use vstd::prelude::*;
use vstd::string::StringExecFns;

use crate::objects::v2::{Error, User};

verus! {

/// Where user-info requests go.
pub const URL: &'static str = "https://open.tiktokapis.com/v2/user/info/";

/// The profile fields asked for when the caller names none.
pub const FIELDS_DEFAULT: &'static str = "open_id,union_id,avatar_url,avatar_url_100,avatar_large_url,display_name,bio_description,profile_deep_link,is_verified,follower_count,following_count,likes_count";

/// A user-info request: the access token and the comma-separated fields to read.
#[derive(Debug, Clone)]
pub struct UserInfoEndpoint {
    pub access_token: String,
    pub fields: String,
}

impl UserInfoEndpoint {
    /// A request for the default fields of the user of `access_token`.
    pub fn new(access_token: &str) -> (r: Self)
        ensures
            r.access_token@ == access_token@,
            r.fields@ == FIELDS_DEFAULT@,
    {
        UserInfoEndpoint {
            access_token: String::from_str(access_token),
            fields: String::from_str(FIELDS_DEFAULT),
        }
    }

    /// The same request, asking for `fields` instead.
    pub fn with_fields(self, fields: &str) -> (r: Self)
        ensures
            r.access_token == self.access_token,
            r.fields@ == fields@,
    {
        let mut r = self;
        r.fields = String::from_str(fields);
        r
    }
}

/// The body of a successful user-info response.
#[derive(Debug, Clone)]
pub struct UserInfoResponseBody {
    pub data: UserInfoResponseBodyData,
    pub error: Error,
}

/// The `data` object of a user-info response.
#[derive(Debug, Clone)]
pub struct UserInfoResponseBodyData {
    pub user: User,
}

} // verus!
