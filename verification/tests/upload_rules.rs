use audio_service::error::ApiError;
use audio_service::upload::{make_object_key, UploadForm};

const ID: u128 = 0x0123_4567_89ab_cdef_0123_4567_89ab_cdef;

#[test]
fn object_key_spells_the_uuid_hyphenated() {
    assert_eq!(make_object_key("user-1", ID, "mp3"), "user-1/01234567-89ab-cdef-0123-456789abcdef.mp3");
    assert_eq!(make_object_key("u", 0, "wav"), "u/00000000-0000-0000-0000-000000000000.wav");
    assert_eq!(make_object_key("u", u128::MAX, ""), "u/ffffffff-ffff-ffff-ffff-ffffffffffff.");
}

#[test]
fn object_key_matches_uuid_display() {
    let id = uuid::Uuid::new_v4();
    let expected = format!("owner/{}.ogg", id);
    assert_eq!(make_object_key("owner", id.as_u128(), "ogg"), expected);
}

#[test]
fn distinct_ids_give_distinct_keys() {
    assert_ne!(make_object_key("o", 1, "mp3"), make_object_key("o", 2, "mp3"));
    assert_ne!(make_object_key("o", 1, "a.mp3"), make_object_key("o", 16, "mp3"));
}

#[test]
fn new_form_has_defaults() {
    let form = UploadForm::new();
    assert_eq!(form.file_size, None);
    assert_eq!(form.filename, "audio");
    assert_eq!(form.content_type, "audio/mpeg");
}

#[test]
fn only_the_file_field_carries_the_file() {
    assert!(UploadForm::is_file_field(Some("file")));
    assert!(!UploadForm::is_file_field(Some("File")));
    assert!(!UploadForm::is_file_field(Some("files")));
    assert!(!UploadForm::is_file_field(Some("")));
    assert!(!UploadForm::is_file_field(None));
}

#[test]
fn missing_file_is_refused() {
    let form = UploadForm::new();
    assert_eq!(form.finish("u", ID).err(), Some(ApiError::InvalidInput("No file provided".to_string())));
}

#[test]
fn non_audio_type_is_refused() {
    let mut form = UploadForm::new();
    form.accept_file(Some("a.png"), Some("image/png"), 10);
    assert_eq!(
        form.finish("u", ID).err(),
        Some(ApiError::InvalidInput("Only audio files are allowed".to_string()))
    );
    let mut form = UploadForm::new();
    form.accept_file(Some("a.mp3"), Some("audio"), 10);
    assert!(form.finish("u", ID).is_err());
}

#[test]
fn accepted_upload_is_named_by_extension() {
    let mut form = UploadForm::new();
    form.accept_file(Some("song.live.flac"), Some("audio/flac"), 1234);
    let up = form.finish("user-1", ID).unwrap();
    assert_eq!(up.object_key, "user-1/01234567-89ab-cdef-0123-456789abcdef.flac");
    assert_eq!(up.filename, "song.live.flac");
    assert_eq!(up.content_type, "audio/flac");
    assert_eq!(up.size_bytes, 1234);
}

#[test]
fn file_without_dot_uses_whole_name_as_extension() {
    let mut form = UploadForm::new();
    form.accept_file(Some("track"), None, 0);
    let up = form.finish("u", ID).unwrap();
    assert_eq!(up.object_key, "u/01234567-89ab-cdef-0123-456789abcdef.track");
    assert_eq!(up.content_type, "audio/mpeg");
    assert_eq!(up.size_bytes, 0);
}

#[test]
fn file_field_without_name_or_type_gets_defaults() {
    let mut form = UploadForm::new();
    form.accept_file(None, None, 5);
    let up = form.finish("u", ID).unwrap();
    assert_eq!(up.filename, "audio");
    assert_eq!(up.object_key, "u/01234567-89ab-cdef-0123-456789abcdef.audio");
}

#[test]
fn trailing_dot_gives_empty_extension() {
    let mut form = UploadForm::new();
    form.accept_file(Some("tune."), Some("audio/ogg"), 1);
    let up = form.finish("u", ID).unwrap();
    assert_eq!(up.object_key, "u/01234567-89ab-cdef-0123-456789abcdef.");
}

#[test]
fn later_file_field_replaces_earlier() {
    let mut form = UploadForm::new();
    form.accept_file(Some("a.mp3"), Some("audio/mpeg"), 1);
    form.accept_file(Some("b.wav"), Some("audio/wav"), 2);
    assert_eq!(form.file_size, Some(2));
    let up = form.finish("u", ID).unwrap();
    assert_eq!(up.filename, "b.wav");
    assert_eq!(up.content_type, "audio/wav");
    assert!(up.object_key.ends_with(".wav"));
}
