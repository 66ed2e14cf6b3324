//! Share endpoint that takes a whole video in one multipart request.
use vstd::prelude::*;
use vstd::string::StringExecFns;

use crate::decimal::{push_signed_decimal, signed_decimal};

verus! {

/// Where share uploads go.
pub const URL: &'static str = "https://open-api.tiktok.com/share/video/upload/";

/// The file name a video is sent under when the caller gives none: the
/// milliseconds since the Unix epoch, with an `.mp4` extension.
pub open spec fn default_file_name_text(timestamp_millis: int) -> Seq<char> {
    signed_decimal(timestamp_millis) + ".mp4"@
}

/// Relies on chrono's `Utc::now` and `DateTime::timestamp_millis` for the
/// current time in milliseconds since the Unix epoch; nothing is assumed of
/// its value.
#[verifier::external_body]
fn now_timestamp_millis() -> i64 {
    chrono::Utc::now().timestamp_millis()
}

/// The default file name for a video sent at `timestamp_millis`.
pub fn default_file_name(timestamp_millis: i64) -> (r: String)
    ensures
        r@ == default_file_name_text(timestamp_millis as int),
{
    let mut r = String::new();
    push_signed_decimal(&mut r, timestamp_millis);
    r.append(".mp4");
    assert(r@ =~= default_file_name_text(timestamp_millis as int));
    r
}

/// The file name a video is sent under: the caller's, or else the default
/// name for the current time.
pub fn upload_file_name(file_name: Option<String>) -> (r: String)
    ensures
        file_name matches Some(n) ==> r == n,
        file_name is None ==> exists|t: i64| r@ == default_file_name_text(t as int),
{
    match file_name {
        Some(n) => n,
        None => {
            let t = now_timestamp_millis();
            default_file_name(t)
        },
    }
}

/// The body of a share upload response.
#[derive(Debug, Clone)]
pub struct VideoUploadResponseBody {
    pub data: VideoUploadResponseBodyData,
    pub extra: VideoUploadResponseBodyExtra,
}

/// The `data` object of a share upload response.
#[derive(Debug, Clone)]
pub struct VideoUploadResponseBodyData {
    pub err_code: i64,
    pub error_code: i64,
    pub share_id: Option<String>,
    pub error_msg: Option<String>,
}

/// The `extra` object of a share upload response.
#[derive(Debug, Clone)]
pub struct VideoUploadResponseBodyExtra {
    pub error_detail: String,
    pub logid: String,
}

} // verus!
