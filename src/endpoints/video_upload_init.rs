//! v2 endpoint that opens an inbox video upload and hands back where to send
//! the chunks.
use vstd::prelude::*;
use vstd::string::StringExecFns;

use crate::media_transfer::{
    chunk_plan, get_chunk_size_and_total_chunk_count, preferred_chunk_size, CHUNK_SIZE_MAX,
};
use crate::objects::v2::Error;
use url::Url;

verus! {

/// Where upload-init requests go.
pub const URL: &'static str = "https://open.tiktokapis.com/v2/post/publish/inbox/video/init/";

/// url's parsed URL type, carried through as the source or the destination of
/// a video.
#[verifier::external_type_specification]
#[verifier::external_body]
pub struct ExUrl(Url);

/// An upload-init request: the access token and where the video comes from.
#[derive(Debug)]
pub struct VideoUploadInitEndpoint {
    pub access_token: String,
    pub source_info: VideoUploadInitRequestBodySourceInfo,
}

impl VideoUploadInitEndpoint {
    /// An upload-init request for the video that `source_info` describes.
    pub fn new(access_token: &str, source_info: VideoUploadInitRequestBodySourceInfo) -> (r: Self)
        ensures
            r.access_token@ == access_token@,
            r.source_info == source_info,
    {
        VideoUploadInitEndpoint { access_token: String::from_str(access_token), source_info }
    }

    /// An upload-init request for a file of `video_size` bytes, to be sent in
    /// chunks of about `chunk_size` bytes (`CHUNK_SIZE_MAX` when none is given).
    /// The plan it announces is the one `UploadSession::new` follows for the same
    /// arguments.
    pub fn with_file_size(access_token: &str, video_size: usize, chunk_size: Option<usize>) -> (r:
        Self)
        ensures
            r.access_token@ == access_token@,
            r.source_info == file_upload_source_info(video_size, chunk_size),
    {
        let preferred = match chunk_size {
            Some(c) => c,
            None => CHUNK_SIZE_MAX,
        };
        let (chunk_size, total_chunk_count) = get_chunk_size_and_total_chunk_count(
            video_size,
            preferred,
        );
        let source_info = VideoUploadInitRequestBodySourceInfo::FileUpload {
            video_size,
            chunk_size,
            total_chunk_count,
        };
        VideoUploadInitEndpoint { access_token: String::from_str(access_token), source_info }
    }
}

/// The source description of a file of `video_size` bytes sent in chunks of
/// about `chunk_size` bytes: its size and its chunk plan.
pub open spec fn file_upload_source_info(
    video_size: usize,
    chunk_size: Option<usize>,
) -> VideoUploadInitRequestBodySourceInfo {
    VideoUploadInitRequestBodySourceInfo::FileUpload {
        video_size,
        chunk_size: chunk_plan(video_size, preferred_chunk_size(chunk_size)).0,
        total_chunk_count: chunk_plan(video_size, preferred_chunk_size(chunk_size)).1,
    }
}

/// The body of an upload-init request.
#[derive(Debug)]
pub struct VideoUploadInitRequestBody {
    pub source_info: VideoUploadInitRequestBodySourceInfo,
}

/// Where the video comes from: a local file sent in chunks, or a URL that the
/// platform pulls from.
#[derive(Debug)]
pub enum VideoUploadInitRequestBodySourceInfo {
    FileUpload { video_size: usize, chunk_size: usize, total_chunk_count: usize },
    PullFromUrl { video_url: Url },
}

/// The body of a successful upload-init response.
#[derive(Debug)]
pub struct VideoUploadInitResponseBody {
    pub data: VideoUploadInitResponseBodyData,
    pub error: Error,
}

/// The `data` object of an upload-init response: the publish id, and for a
/// file upload the URL that takes the chunks.
#[derive(Debug)]
pub struct VideoUploadInitResponseBodyData {
    pub publish_id: String,
    pub upload_url: Option<Url>,
}

} // verus!
