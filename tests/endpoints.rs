use tiktok_api::decimal::push_signed_decimal;
use tiktok_api::endpoints::refresh_token::RefreshTokenEndpoint;
use tiktok_api::endpoints::user_info::{UserInfoEndpoint, FIELDS_DEFAULT};
use tiktok_api::endpoints::video_upload::{default_file_name, upload_file_name};
use tiktok_api::endpoints::video_upload_init::{
    VideoUploadInitEndpoint, VideoUploadInitRequestBodySourceInfo,
};
use tiktok_api::media_transfer::UploadSession;
use tiktok_api::tokio_fs_util::info_from_metadata;

#[test]
fn refresh_token_endpoint_keeps_its_inputs() {
    let e = RefreshTokenEndpoint::new("KEY", "TOKEN");
    assert_eq!(e.client_key, "KEY");
    assert_eq!(e.refresh_token, "TOKEN");
}

#[test]
fn user_info_endpoint_fields() {
    let e = UserInfoEndpoint::new("TOKEN");
    assert_eq!(e.access_token, "TOKEN");
    assert_eq!(e.fields, FIELDS_DEFAULT);
    let e = e.with_fields("open_id,union_id,avatar_url");
    assert_eq!(e.access_token, "TOKEN");
    assert_eq!(e.fields, "open_id,union_id,avatar_url");
}

#[test]
fn init_payload_matches_upload_plan() {
    let e = VideoUploadInitEndpoint::with_file_size("TOKEN", 150_000_000, None);
    assert_eq!(e.access_token, "TOKEN");
    let session = UploadSession::new(150_000_000, None).unwrap();
    match e.source_info {
        VideoUploadInitRequestBodySourceInfo::FileUpload {
            video_size,
            chunk_size,
            total_chunk_count,
        } => {
            assert_eq!(video_size, 150_000_000);
            assert_eq!(chunk_size, 67_108_864);
            assert_eq!(total_chunk_count, 2);
            assert_eq!(chunk_size, session.chunk_size());
            assert_eq!(total_chunk_count, session.total_chunk_count());
        }
        other => panic!("{other:?}"),
    }
}

#[test]
fn init_payload_single_chunk() {
    let e = VideoUploadInitEndpoint::new(
        "TOKEN",
        VideoUploadInitRequestBodySourceInfo::FileUpload {
            video_size: 30567100,
            chunk_size: 30567100,
            total_chunk_count: 1,
        },
    );
    let f = VideoUploadInitEndpoint::with_file_size("TOKEN", 30567100, None);
    match (e.source_info, f.source_info) {
        (
            VideoUploadInitRequestBodySourceInfo::FileUpload { video_size: a, chunk_size: b, total_chunk_count: c },
            VideoUploadInitRequestBodySourceInfo::FileUpload { video_size: x, chunk_size: y, total_chunk_count: z },
        ) => assert_eq!((a, b, c), (x, y, z)),
        other => panic!("{other:?}"),
    }
}

#[test]
fn default_file_name_is_millis_with_extension() {
    assert_eq!(default_file_name(1_700_000_000_123), "1700000000123.mp4");
    assert_eq!(default_file_name(0), "0.mp4");
    assert_eq!(default_file_name(-42), "-42.mp4");
}

#[test]
fn upload_file_name_prefers_callers_name() {
    assert_eq!(upload_file_name(Some("clip.mp4".to_string())), "clip.mp4");
    let name = upload_file_name(None);
    assert!(name.ends_with(".mp4"));
    let stem = &name[..name.len() - 4];
    assert!(!stem.is_empty());
    assert!(stem.chars().all(|c| c.is_ascii_digit()));
    assert!(stem.parse::<i64>().unwrap() > 1_600_000_000_000);
}

#[test]
fn signed_decimal_extremes() {
    let mut s = String::from("x");
    push_signed_decimal(&mut s, i64::MIN);
    assert_eq!(s, "x-9223372036854775808");
    let mut t = String::new();
    push_signed_decimal(&mut t, i64::MAX);
    assert_eq!(t, "9223372036854775807");
}

#[test]
fn file_info_only_for_regular_files() {
    let i = info_from_metadata(true, 12, Some("a.mp4".to_string())).unwrap();
    assert_eq!(i.file_size, 12);
    assert_eq!(i.file_name.as_deref(), Some("a.mp4"));
    assert!(info_from_metadata(false, 12, None).is_none());
}
