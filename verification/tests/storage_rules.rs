use audio_service::error::ApiError;
use audio_service::storage::{bucket_listed, bucket_name, StreamMeta};

#[test]
fn bucket_defaults_to_audios() {
    assert_eq!(bucket_name(None), "audios");
    assert_eq!(bucket_name(Some("tracks".into())), "tracks");
}

#[test]
fn listed_bucket_is_found() {
    let names = vec![None, Some("other".to_string()), Some("audios".to_string())];
    assert!(bucket_listed(&names, "audios"));
    assert!(!bucket_listed(&names, "audio"));
    assert!(!bucket_listed(&vec![], "audios"));
    assert!(!bucket_listed(&vec![None], ""));
}

#[test]
fn stream_meta_defaults_media_type() {
    let m = StreamMeta::from_object(None, Some(3), None);
    assert_eq!(m.content_type, "application/octet-stream");
    assert_eq!(m.content_length, Some(3));
    assert_eq!(m.content_range, None);
    let m = StreamMeta::from_object(Some("audio/mpeg".into()), None, Some("bytes 0-1/2".into()));
    assert_eq!(m.content_type, "audio/mpeg");
    assert_eq!(m.content_range.as_deref(), Some("bytes 0-1/2"));
}

#[test]
fn error_statuses_and_messages() {
    let cases = [
        (ApiError::InvalidInput("bad".into()), 400, "bad"),
        (ApiError::InternalError, 500, "Internal server error"),
        (ApiError::Unauthorized, 401, "Unauthorized"),
        (ApiError::NotFound, 404, "Not found"),
        (ApiError::Forbidden, 403, "Forbidden"),
    ];
    for (e, code, msg) in cases {
        assert_eq!(e.status_code(), code);
        assert_eq!(e.message(), msg);
    }
    assert_eq!(ApiError::invalid_input("x"), ApiError::InvalidInput("x".into()));
}
