//! Object storage: which bucket the audio lives in and what a fetched object
//! tells the client.

use vstd::prelude::*;
use vstd::string::*;

use crate::text::{same_text, text_opt};

verus! {

/// The bucket used when none is configured.
pub open spec fn default_bucket() -> Seq<char> {
    "audios"@
}

/// The bucket to use: the configured one, else "audios".
pub fn bucket_name(configured: Option<String>) -> (r: String)
    ensures
        r@ == match configured {
            Some(b) => b@,
            None => default_bucket(),
        },
{
    match configured {
        Some(b) => b,
        None => String::from_str("audios"),
    }
}

/// Whether the bucket `bucket` is among the listed bucket names (a listed
/// bucket may lack a name).
pub fn bucket_listed(names: &Vec<Option<String>>, bucket: &str) -> (r: bool)
    ensures
        r == exists|i: int| 0 <= i < names@.len() && text_opt(#[trigger] names@[i]) == Some(bucket@),
{
    let n = names.len();
    let mut i: usize = 0;
    while i < n
        invariant
            n == names@.len(),
            i <= n,
            forall|j: int| 0 <= j < i ==> text_opt(#[trigger] names@[j]) != Some(bucket@),
        decreases n - i,
    {
        let hit = match &names[i] {
            Some(name) => same_text(name.as_str(), bucket),
            None => false,
        };
        if hit {
            assert(text_opt(names@[i as int]) == Some(bucket@));
            return true;
        }
        i = i + 1;
    }
    false
}

/// What the client is told of a fetched object (its bytes travel apart).
pub struct StreamMeta {
    pub content_type: String,
    pub content_length: Option<i64>,
    pub content_range: Option<String>,
}

impl StreamMeta {
    /// The facts storage gave about an object, with the media type
    /// "application/octet-stream" when storage gave none.
    pub fn from_object(
        content_type: Option<String>,
        content_length: Option<i64>,
        content_range: Option<String>,
    ) -> (r: Self)
        ensures
            r.content_type@ == match content_type {
                Some(t) => t@,
                None => "application/octet-stream"@,
            },
            r.content_length == content_length,
            text_opt(r.content_range) == text_opt(content_range),
    {
        let content_type = match content_type {
            Some(t) => t,
            None => String::from_str("application/octet-stream"),
        };
        StreamMeta { content_type, content_length, content_range }
    }
}

} // verus!
