//! The audio catalogue: its records, who may stream or collect what,
//! listings and searches, and the head of a streamed answer.

use vstd::prelude::*;
use vstd::string::*;

use crate::error::ApiError;
use crate::text::{blank, is_blank, same_text, text_opt};

verus! {

/// A stored audio record. Ids are the UUID's 128-bit value; times are
/// microseconds since the epoch.
pub struct Audio {
    pub id: u128,
    pub owner_id: String,
    pub title: String,
    pub description: Option<String>,
    pub filename: String,
    pub object_key: String,
    pub size_bytes: i64,
    pub duration_ms: Option<i32>,
    pub is_public: bool,
    pub created_at: i64,
    pub updated_at: i64,
}

/// An audio record as listed to a user, with whether the user owns it.
pub struct AudioWithMeta {
    pub id: u128,
    pub owner_id: String,
    pub title: String,
    pub description: Option<String>,
    pub filename: String,
    pub size_bytes: i64,
    pub duration_ms: Option<i32>,
    pub is_public: bool,
    pub created_at: i64,
    pub is_owned: bool,
}

/// The query of an upload request.
pub struct UploadAudioQuery {
    pub title: String,
    pub description: Option<String>,
}

/// The query of a search request.
pub struct SearchAudioQuery {
    pub q: String,
    pub limit: i64,
    pub offset: i64,
}

/// A request to make an audio public or private.
pub struct UpdatePrivacyRequest {
    pub is_public: bool,
}

/// A listing and the number of entries in it.
pub struct AudioListResponse {
    pub items: Vec<AudioWithMeta>,
    pub total: i64,
}

/// The answer to an accepted upload.
pub struct UploadResponse {
    pub id: u128,
    pub title: String,
    pub object_key: String,
    pub size_bytes: i64,
}

/// What streaming needs to know of an audio.
pub struct AudioRow {
    pub object_key: String,
    pub owner_id: String,
    pub is_public: bool,
}

/// What collecting needs to know of an audio.
pub struct AudioCheck {
    pub owner_id: String,
    pub is_public: bool,
}

/// How far a stream request is allowed.
#[derive(Debug, Clone, Copy, PartialEq, Eq)]
pub enum StreamAccess {
    /// The caller owns the audio or it is public.
    Granted,
    /// Only allowed if the caller has collected the audio.
    NeedsCollectionCheck,
}

/// Why an audio cannot be collected.
pub enum CollectRefusal {
    OwnAudio,
    Private,
}

/// The page size of a search that names none.
pub fn default_limit() -> (r: i64)
    ensures
        r == 20,
{
    20
}

impl SearchAudioQuery {
    /// A search query with its defaults: 20 results from offset 0.
    pub fn new(q: String, limit: Option<i64>, offset: Option<i64>) -> (r: Self)
        ensures
            r.q@ == q@,
            r.limit == match limit {
                Some(l) => l,
                None => 20,
            },
            r.offset == match offset {
                Some(o) => o,
                None => 0,
            },
    {
        let limit = match limit {
            Some(l) => l,
            None => default_limit(),
        };
        let offset = match offset {
            Some(o) => o,
            None => 0,
        };
        SearchAudioQuery { q, limit, offset }
    }
}

/// How far `user` may stream an audio owned by `owner`.
pub open spec fn stream_decision(owner: Seq<char>, is_public: bool, user: Seq<char>) -> StreamAccess {
    if owner == user || is_public {
        StreamAccess::Granted
    } else {
        StreamAccess::NeedsCollectionCheck
    }
}

/// Why `user` may not collect an audio owned by `owner`; none when allowed.
pub open spec fn collect_refusal(owner: Seq<char>, is_public: bool, user: Seq<char>) -> Option<CollectRefusal> {
    if owner == user {
        Some(CollectRefusal::OwnAudio)
    } else if !is_public {
        Some(CollectRefusal::Private)
    } else {
        None
    }
}

/// Decides a stream request by `user` for the audio `row` (none when no such
/// audio exists).
pub fn stream_access(row: Option<&AudioRow>, user: &str) -> (r: Result<StreamAccess, ApiError>)
    ensures
        match row {
            None => r == Err::<StreamAccess, ApiError>(ApiError::NotFound),
            Some(a) => r == Ok::<StreamAccess, ApiError>(
                stream_decision(a.owner_id@, a.is_public, user@),
            ),
        },
{
    match row {
        None => Err(ApiError::NotFound),
        Some(a) => {
            if same_text(a.owner_id.as_str(), user) || a.is_public {
                Ok(StreamAccess::Granted)
            } else {
                Ok(StreamAccess::NeedsCollectionCheck)
            }
        },
    }
}

/// Settles a stream request that needed a collection check.
pub fn collection_grant(in_collection: bool) -> (r: Result<(), ApiError>)
    ensures
        in_collection ==> r is Ok,
        !in_collection ==> r == Err::<(), ApiError>(ApiError::Forbidden),
{
    if in_collection {
        Ok(())
    } else {
        Err(ApiError::Forbidden)
    }
}

/// Decides whether `user` may add the audio `row` (none when no such audio
/// exists) to their collection.
pub fn collect_check(row: Option<&AudioCheck>, user: &str) -> (r: Result<(), ApiError>)
    ensures
        match row {
            None => r == Err::<(), ApiError>(ApiError::NotFound),
            Some(a) => match collect_refusal(a.owner_id@, a.is_public, user@) {
                Some(CollectRefusal::OwnAudio) => r matches Err(e) && e.is_invalid_input(
                    "Cannot add your own audio to collection"@,
                ),
                Some(CollectRefusal::Private) => r == Err::<(), ApiError>(ApiError::Forbidden),
                None => r is Ok,
            },
        },
{
    match row {
        None => Err(ApiError::NotFound),
        Some(a) => {
            if same_text(a.owner_id.as_str(), user) {
                Err(ApiError::invalid_input("Cannot add your own audio to collection"))
            } else if !a.is_public {
                Err(ApiError::Forbidden)
            } else {
                Ok(())
            }
        },
    }
}

/// Streaming is granted outright exactly to the owner and, for a public
/// audio, to everyone; anyone else's request for a private audio must go
/// through the collection check.
pub proof fn law_stream_granted_to_owner_or_public(owner: Seq<char>, is_public: bool, user: Seq<char>)
    ensures
        stream_decision(owner, is_public, user) == StreamAccess::Granted <==> (owner == user
            || is_public),
        owner != user && !is_public ==> stream_decision(owner, is_public, user)
            == StreamAccess::NeedsCollectionCheck,
{
}

/// Only the owner is told the audio is their own; another user may collect
/// exactly the public audios, and is refused a private one as private.
pub proof fn law_collect_refusals(owner: Seq<char>, is_public: bool, user: Seq<char>)
    ensures
        (collect_refusal(owner, is_public, user) matches Some(CollectRefusal::OwnAudio)) <==> owner
            == user,
        owner != user && is_public ==> collect_refusal(owner, is_public, user) is None,
        owner != user && !is_public ==> (collect_refusal(owner, is_public, user) matches Some(
            CollectRefusal::Private,
        )),
{
}

/// An audio that `user` may collect, `user` may also stream outright.
pub proof fn law_collectable_is_streamable(owner: Seq<char>, is_public: bool, user: Seq<char>)
    requires
        collect_refusal(owner, is_public, user) is None,
    ensures
        stream_decision(owner, is_public, user) == StreamAccess::Granted,
{
}

/// An owner may always stream their audio and may never collect it.
pub proof fn law_owner_streams_but_never_collects(owner: Seq<char>, is_public: bool)
    ensures
        stream_decision(owner, is_public, owner) == StreamAccess::Granted,
        collect_refusal(owner, is_public, owner) matches Some(CollectRefusal::OwnAudio),
{
}

/// What a privacy change that touched `rows_affected` rows means: none
/// touched means the caller owns no such audio.
pub fn privacy_update_outcome(rows_affected: u64) -> (r: Result<(), ApiError>)
    ensures
        rows_affected == 0 ==> r == Err::<(), ApiError>(ApiError::NotFound),
        rows_affected != 0 ==> r is Ok,
{
    if rows_affected == 0 {
        Err(ApiError::NotFound)
    } else {
        Ok(())
    }
}

/// The storage key of a deleted audio, which must have existed (and been
/// the caller's).
pub fn deleted_object_key(row: Option<String>) -> (r: Result<String, ApiError>)
    ensures
        match row {
            Some(k) => r == Ok::<String, ApiError>(k),
            None => r == Err::<String, ApiError>(ApiError::NotFound),
        },
{
    match row {
        Some(k) => Ok(k),
        None => Err(ApiError::NotFound),
    }
}

/// Checks a search query: it must hold more than white space.
pub fn check_search_query(q: &str) -> (r: Result<(), ApiError>)
    ensures
        blank(q@) ==> (r matches Err(e) && e.is_invalid_input("Search query is required"@)),
        !blank(q@) ==> r is Ok,
{
    if is_blank(q) {
        return Err(ApiError::invalid_input("Search query is required"));
    }
    Ok(())
}

impl AudioListResponse {
    /// A listing of `items` with their count.
    pub fn from_items(items: Vec<AudioWithMeta>) -> (r: Self)
        ensures
            r.items@ == items@,
            r.total == items@.len() as i64,
    {
        let total = items.len() as i64;
        AudioListResponse { items, total }
    }

    /// A user's listing: the audios they own, then those they collected.
    pub fn combine(owned: Vec<AudioWithMeta>, collected: Vec<AudioWithMeta>) -> (r: Self)
        ensures
            r.items@ == owned@ + collected@,
            r.total == (owned@.len() + collected@.len()) as i64,
    {
        let mut items = owned;
        let mut rest = collected;
        items.append(&mut rest);
        Self::from_items(items)
    }
}

/// A header of a streamed answer.
pub enum StreamHeader {
    ContentType(String),
    AcceptRanges(String),
    CacheControl(String),
    ContentLength(i64),
    ContentRange(String),
}

/// The status and headers of a streamed answer.
pub struct StreamHead {
    pub status: u16,
    pub headers: Vec<StreamHeader>,
}

/// The header views of a streamed answer.
pub enum HeaderView {
    ContentType(Seq<char>),
    AcceptRanges(Seq<char>),
    CacheControl(Seq<char>),
    ContentLength(i64),
    ContentRange(Seq<char>),
}

/// The view of a header.
pub open spec fn header_view(h: StreamHeader) -> HeaderView {
    match h {
        StreamHeader::ContentType(s) => HeaderView::ContentType(s@),
        StreamHeader::AcceptRanges(s) => HeaderView::AcceptRanges(s@),
        StreamHeader::CacheControl(s) => HeaderView::CacheControl(s@),
        StreamHeader::ContentLength(n) => HeaderView::ContentLength(n),
        StreamHeader::ContentRange(s) => HeaderView::ContentRange(s@),
    }
}

/// The headers a streamed answer carries, in order.
pub open spec fn stream_headers(content_type: Seq<char>, content_length: Option<i64>, content_range: Option<Seq<char>>) -> Seq<HeaderView> {
    let fixed = seq![
        HeaderView::ContentType(content_type),
        HeaderView::AcceptRanges("bytes"@),
        HeaderView::CacheControl("private, max-age=0, must-revalidate"@),
    ];
    let with_length = match content_length {
        Some(n) => fixed.push(HeaderView::ContentLength(n)),
        None => fixed,
    };
    match content_range {
        Some(r) => with_length.push(HeaderView::ContentRange(r)),
        None => with_length,
    }
}

/// A streamed answer always opens with the media type, byte ranges and the
/// no-shared-cache rule, and carries one more header for each of the length
/// and range that storage gave, in that order.
pub proof fn law_stream_headers_shape(ct: Seq<char>, len: Option<i64>, range: Option<Seq<char>>)
    ensures
        stream_headers(ct, len, range).len() == 3 + (if len is Some { 1int } else { 0 }) + (
        if range is Some {
            1int
        } else {
            0
        }),
        stream_headers(ct, len, range)[0] == HeaderView::ContentType(ct),
        stream_headers(ct, len, range)[1] == HeaderView::AcceptRanges("bytes"@),
        len matches Some(n) ==> stream_headers(ct, len, range)[3] == HeaderView::ContentLength(n),
        range matches Some(r) ==> stream_headers(ct, len, range).last() == HeaderView::ContentRange(r),
{
}

/// The head of the answer that streams an object: 206 when the client asked
/// for a range, 200 otherwise; the object's media type, byte ranges
/// accepted, no shared caching, and the length and range when storage gave
/// them.
pub fn stream_head(
    range_requested: bool,
    content_type: String,
    content_length: Option<i64>,
    content_range: Option<String>,
) -> (r: StreamHead)
    ensures
        r.status == (if range_requested {
            206u16
        } else {
            200u16
        }),
        r.headers@.map_values(|h: StreamHeader| header_view(h)) == stream_headers(
            content_type@,
            content_length,
            text_opt(content_range),
        ),
{
    let ghost ct = content_type@;
    let ghost cr = text_opt(content_range);
    let mut headers = Vec::new();
    headers.push(StreamHeader::ContentType(content_type));
    headers.push(StreamHeader::AcceptRanges(String::from_str("bytes")));
    headers.push(
        StreamHeader::CacheControl(String::from_str("private, max-age=0, must-revalidate")),
    );
    match content_length {
        Some(n) => headers.push(StreamHeader::ContentLength(n)),
        None => {},
    }
    match content_range {
        Some(s) => headers.push(StreamHeader::ContentRange(s)),
        None => {},
    }
    assert(headers@.map_values(|h: StreamHeader| header_view(h)) =~= stream_headers(
        ct,
        content_length,
        cr,
    ));
    let status: u16 = if range_requested {
        206
    } else {
        200
    };
    StreamHead { status, headers }
}

} // verus!
