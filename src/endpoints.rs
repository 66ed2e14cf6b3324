//! Endpoints of the platform's API: what each request is built from, and the
//! bodies that come back.
pub mod refresh_token;
pub mod user_info;
pub mod video_upload;
pub mod video_upload_init;
