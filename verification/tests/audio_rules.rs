use audio_service::audio::{
    check_search_query, collect_check, collection_grant, default_limit, deleted_object_key,
    privacy_update_outcome, stream_access, stream_head, AudioCheck, AudioListResponse, AudioRow,
    AudioWithMeta, SearchAudioQuery, StreamAccess, StreamHeader,
};
use audio_service::error::ApiError;

fn row(owner: &str, public: bool) -> AudioRow {
    AudioRow { object_key: "k".into(), owner_id: owner.into(), is_public: public }
}

fn check(owner: &str, public: bool) -> AudioCheck {
    AudioCheck { owner_id: owner.into(), is_public: public }
}

#[test]
fn default_page_size_is_twenty() {
    assert_eq!(default_limit(), 20);
    let q = SearchAudioQuery::new("jazz".into(), None, None);
    assert_eq!((q.q.as_str(), q.limit, q.offset), ("jazz", 20, 0));
    let q = SearchAudioQuery::new("jazz".into(), Some(5), Some(10));
    assert_eq!((q.limit, q.offset), (5, 10));
}

#[test]
fn owner_and_public_audio_stream_directly() {
    assert_eq!(stream_access(Some(&row("me", false)), "me"), Ok(StreamAccess::Granted));
    assert_eq!(stream_access(Some(&row("you", true)), "me"), Ok(StreamAccess::Granted));
    assert_eq!(stream_access(Some(&row("you", false)), "me"), Ok(StreamAccess::NeedsCollectionCheck));
    assert_eq!(stream_access(None, "me"), Err(ApiError::NotFound));
}

#[test]
fn collection_check_settles_private_stream() {
    assert_eq!(collection_grant(true), Ok(()));
    assert_eq!(collection_grant(false), Err(ApiError::Forbidden));
}

#[test]
fn collecting_rules() {
    assert_eq!(collect_check(None, "me"), Err(ApiError::NotFound));
    assert_eq!(
        collect_check(Some(&check("me", true)), "me"),
        Err(ApiError::InvalidInput("Cannot add your own audio to collection".into()))
    );
    assert_eq!(collect_check(Some(&check("you", false)), "me"), Err(ApiError::Forbidden));
    assert_eq!(collect_check(Some(&check("you", true)), "me"), Ok(()));
}

#[test]
fn collectable_audio_is_streamable() {
    assert_eq!(collect_check(Some(&check("you", true)), "me"), Ok(()));
    assert_eq!(stream_access(Some(&row("you", true)), "me"), Ok(StreamAccess::Granted));
}

#[test]
fn privacy_update_needs_a_row() {
    assert_eq!(privacy_update_outcome(0), Err(ApiError::NotFound));
    assert_eq!(privacy_update_outcome(1), Ok(()));
}

#[test]
fn deletion_needs_a_row() {
    assert_eq!(deleted_object_key(Some("a/b.mp3".into())), Ok("a/b.mp3".to_string()));
    assert_eq!(deleted_object_key(None), Err(ApiError::NotFound));
}

#[test]
fn blank_search_is_refused() {
    let refused = Err(ApiError::InvalidInput("Search query is required".into()));
    assert_eq!(check_search_query(""), refused);
    assert_eq!(check_search_query("  \t\n"), refused);
    assert_eq!(check_search_query("\u{3000}\u{a0}\u{2028}"), refused);
    assert_eq!(check_search_query(" jazz "), Ok(()));
    assert_eq!(check_search_query("\u{200b}"), Ok(()));
}

#[test]
fn blank_matches_trim_on_all_white_space() {
    for c in ['\t', '\n', '\u{b}', '\u{c}', '\r', ' ', '\u{85}', '\u{a0}', '\u{1680}', '\u{2000}', '\u{200a}',
              '\u{2028}', '\u{2029}', '\u{202f}', '\u{205f}', '\u{3000}', 'x', '\u{180e}', '\u{feff}'] {
        let s = c.to_string();
        assert_eq!(check_search_query(&s).is_err(), s.trim().is_empty(), "char {:?}", c);
    }
}

fn meta(title: &str, owned: bool) -> AudioWithMeta {
    AudioWithMeta {
        id: 7,
        owner_id: "o".into(),
        title: title.into(),
        description: None,
        filename: "f".into(),
        size_bytes: 1,
        duration_ms: None,
        is_public: true,
        created_at: 0,
        is_owned: owned,
    }
}

#[test]
fn listing_puts_owned_first_and_counts() {
    let list = AudioListResponse::combine(vec![meta("a", true), meta("b", true)], vec![meta("c", false)]);
    let titles: Vec<&str> = list.items.iter().map(|m| m.title.as_str()).collect();
    assert_eq!(titles, vec!["a", "b", "c"]);
    assert_eq!(list.total, 3);
    let empty = AudioListResponse::from_items(vec![]);
    assert_eq!(empty.total, 0);
}

fn describe(h: &StreamHeader) -> String {
    match h {
        StreamHeader::ContentType(s) => format!("content-type: {}", s),
        StreamHeader::AcceptRanges(s) => format!("accept-ranges: {}", s),
        StreamHeader::CacheControl(s) => format!("cache-control: {}", s),
        StreamHeader::ContentLength(n) => format!("content-length: {}", n),
        StreamHeader::ContentRange(s) => format!("content-range: {}", s),
    }
}

#[test]
fn ranged_stream_head() {
    let head = stream_head(true, "audio/mpeg".into(), Some(100), Some("bytes 0-99/1000".into()));
    assert_eq!(head.status, 206);
    let lines: Vec<String> = head.headers.iter().map(describe).collect();
    assert_eq!(
        lines,
        vec![
            "content-type: audio/mpeg",
            "accept-ranges: bytes",
            "cache-control: private, max-age=0, must-revalidate",
            "content-length: 100",
            "content-range: bytes 0-99/1000",
        ]
    );
}

#[test]
fn whole_stream_head() {
    let head = stream_head(false, "audio/ogg".into(), None, None);
    assert_eq!(head.status, 200);
    let lines: Vec<String> = head.headers.iter().map(describe).collect();
    assert_eq!(
        lines,
        vec!["content-type: audio/ogg", "accept-ranges: bytes", "cache-control: private, max-age=0, must-revalidate"]
    );
}
