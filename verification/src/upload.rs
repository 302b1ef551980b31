//! Accepting an uploaded audio file: which multipart field carries it, what
//! it is called, and the storage key it is filed under.

use vstd::prelude::*;
use vstd::string::*;

use crate::error::ApiError;
use crate::text::{after_last, has_prefix, same_text, starts_with, text_after_last, join2};

verus! {

/// The lower-case hexadecimal digit for `d` (0..16).
pub open spec fn hex_lower(d: int) -> char {
    if d < 10 {
        (48 + d) as char
    } else {
        (87 + d) as char
    }
}

/// The last `count` hexadecimal digits of `v`, most significant first.
pub open spec fn hex_digits(v: nat, count: nat) -> Seq<char>
    decreases count,
{
    if count == 0 {
        seq![]
    } else {
        hex_digits(v / 16, (count - 1) as nat).push(hex_lower((v % 16) as int))
    }
}

/// `16` to the power `n`.
pub open spec fn pow16(n: nat) -> nat
    decreases n,
{
    if n == 0 {
        1
    } else {
        16 * pow16((n - 1) as nat)
    }
}

/// The hyphenated lower-case text of the UUID whose big-endian value is
/// `id`: 32 hex digits in groups of 8, 4, 4, 4 and 12.
pub open spec fn uuid_text(id: u128) -> Seq<char> {
    let d = hex_digits(id as nat, 32);
    d.subrange(0, 8) + seq!['-'] + d.subrange(8, 12) + seq!['-'] + d.subrange(12, 16)
        + seq!['-'] + d.subrange(16, 20) + seq!['-'] + d.subrange(20, 32)
}

/// The storage key of an upload: `<owner>/<id>.<extension>`.
pub open spec fn object_key(owner: Seq<char>, id: u128, ext: Seq<char>) -> Seq<char> {
    owner + seq!['/'] + uuid_text(id) + seq!['.'] + ext
}

/// Formats `Uuid::from_u128(id)` with `Display` (uuid's hyphenated
/// lower-case form); the contract spells that form out digit by digit.
#[verifier::external_body]
fn uuid_to_text(id: u128) -> (r: String)
    ensures
        r@ == uuid_text(id),
{
    uuid::Uuid::from_u128(id).to_string()
}

proof fn lemma_hex_digits_len(v: nat, n: nat)
    ensures
        hex_digits(v, n).len() == n,
    decreases n,
{
    if n > 0 {
        lemma_hex_digits_len(v / 16, (n - 1) as nat);
    }
}

proof fn lemma_hex_digits_injective(a: nat, b: nat, n: nat)
    requires
        a < pow16(n),
        b < pow16(n),
        hex_digits(a, n) == hex_digits(b, n),
    ensures
        a == b,
    decreases n,
{
    if n > 0 {
        let m = (n - 1) as nat;
        let da = hex_digits(a, n);
        let db = hex_digits(b, n);
        lemma_hex_digits_len(a / 16, m);
        lemma_hex_digits_len(b / 16, m);
        assert(da[m as int] == hex_lower((a % 16) as int));
        assert(db[m as int] == hex_lower((b % 16) as int));
        assert(a % 16 == b % 16);
        assert(hex_digits(a / 16, m) =~= da.drop_last());
        assert(hex_digits(b / 16, m) =~= db.drop_last());
        assert(a / 16 < pow16(m));
        assert(b / 16 < pow16(m));
        lemma_hex_digits_injective(a / 16, b / 16, m);
    }
}

proof fn lemma_u128_below_pow16(v: u128)
    ensures
        (v as nat) < pow16(32),
{
    reveal_with_fuel(pow16, 33);
    assert(pow16(32) == 0x1_0000_0000_0000_0000_0000_0000_0000_0000nat);
}

/// Where the `k`-th hex digit sits in the hyphenated text.
spec fn digit_position(k: int) -> int {
    if k < 8 {
        k
    } else if k < 12 {
        k + 1
    } else if k < 16 {
        k + 2
    } else if k < 20 {
        k + 3
    } else {
        k + 4
    }
}

proof fn lemma_uuid_text_shape(id: u128)
    ensures
        uuid_text(id).len() == 36,
        forall|k: int|
            0 <= k < 32 ==> uuid_text(id)[#[trigger] digit_position(k)] == hex_digits(
                id as nat,
                32,
            )[k],
{
    lemma_hex_digits_len(id as nat, 32);
}

/// Two ids with the same text are the same id.
pub proof fn lemma_uuid_text_injective(a: u128, b: u128)
    requires
        uuid_text(a) == uuid_text(b),
    ensures
        a == b,
{
    lemma_uuid_text_shape(a);
    lemma_uuid_text_shape(b);
    lemma_hex_digits_len(a as nat, 32);
    lemma_hex_digits_len(b as nat, 32);
    assert forall|k: int| 0 <= k < 32 implies hex_digits(a as nat, 32)[k] == hex_digits(
        b as nat,
        32,
    )[k] by {
        assert(uuid_text(a)[digit_position(k)] == hex_digits(a as nat, 32)[k]);
        assert(uuid_text(b)[digit_position(k)] == hex_digits(b as nat, 32)[k]);
    }
    assert(hex_digits(a as nat, 32) =~= hex_digits(b as nat, 32));
    lemma_u128_below_pow16(a);
    lemma_u128_below_pow16(b);
    lemma_hex_digits_injective(a as nat, b as nat, 32);
}

/// Uploads by one owner under different ids are filed under different keys,
/// whatever their file extensions.
pub proof fn law_object_keys_distinct(owner: Seq<char>, a: u128, b: u128, ext_a: Seq<char>, ext_b: Seq<char>)
    requires
        a != b,
    ensures
        object_key(owner, a, ext_a) != object_key(owner, b, ext_b),
{
    lemma_uuid_text_shape(a);
    lemma_uuid_text_shape(b);
    let ka = object_key(owner, a, ext_a);
    let kb = object_key(owner, b, ext_b);
    let start: int = owner.len() as int + 1;
    if ka == kb {
        assert(ka.subrange(start, start + 36) =~= uuid_text(a));
        assert(kb.subrange(start, start + 36) =~= uuid_text(b));
        lemma_uuid_text_injective(a, b);
    }
}

/// Every upload's key lies under its owner's prefix `<owner>/`.
pub proof fn law_object_key_under_owner(owner: Seq<char>, id: u128, ext: Seq<char>)
    ensures
        has_prefix(object_key(owner, id, ext), owner + seq!['/']),
{
    let k = object_key(owner, id, ext);
    assert(k.subrange(0, owner.len() as int + 1) =~= owner + seq!['/']);
}

/// The storage key for an upload by `owner` under `id` with extension `ext`.
pub fn make_object_key(owner: &str, id: u128, ext: &str) -> (r: String)
    ensures
        r@ == object_key(owner@, id, ext@),
{
    let id_text = uuid_to_text(id);
    let mut r = join2(owner, "/");
    r.append(id_text.as_str());
    r.append(".");
    r.append(ext);
    proof {
        reveal_strlit("/");
        reveal_strlit(".");
        assert(r@ =~= object_key(owner@, id, ext@));
    }
    r
}


/// The file part of an upload request as far as it has been read.
pub struct UploadForm {
    /// Size in bytes of the file read so far, if a file field was seen.
    pub file_size: Option<usize>,
    /// The file's name as the client sent it.
    pub filename: String,
    /// The file's media type as the client sent it.
    pub content_type: String,
}

/// An upload that passed the checks, ready to be stored.
pub struct PreparedUpload {
    /// Where the file is stored.
    pub object_key: String,
    /// The file's name as the client sent it.
    pub filename: String,
    /// The media type the object is stored with.
    pub content_type: String,
    /// The file's size in bytes.
    pub size_bytes: i64,
}

impl UploadForm {
    /// A form in which no file field has been seen: name "audio", type
    /// "audio/mpeg".
    pub fn new() -> (f: Self)
        ensures
            f.file_size is None,
            f.filename@ == "audio"@,
            f.content_type@ == "audio/mpeg"@,
    {
        UploadForm {
            file_size: None,
            filename: String::from_str("audio"),
            content_type: String::from_str("audio/mpeg"),
        }
    }

    /// Whether a multipart field of this name carries the file.
    pub fn is_file_field(name: Option<&str>) -> (r: bool)
        ensures
            r == (name matches Some(n) && n@ == "file"@),
    {
        match name {
            Some(n) => same_text(n, "file"),
            None => false,
        }
    }

    /// Records a file field: its name and media type, each with its default
    /// when the field has none, and its size. A later file field replaces an
    /// earlier one.
    pub fn accept_file(&mut self, file_name: Option<&str>, content_type: Option<&str>, size: usize)
        ensures
            final(self).file_size == Some(size),
            final(self).filename@ == (match file_name {
                Some(n) => n@,
                None => "audio"@,
            }),
            final(self).content_type@ == (match content_type {
                Some(t) => t@,
                None => "audio/mpeg"@,
            }),
    {
        self.filename = match file_name {
            Some(n) => String::from_str(n),
            None => String::from_str("audio"),
        };
        self.content_type = match content_type {
            Some(t) => String::from_str(t),
            None => String::from_str("audio/mpeg"),
        };
        self.file_size = Some(size);
    }

    /// Checks the form and names the object for `owner`'s upload under
    /// `audio_id`: a file must be present and of an `audio/` type; the key is
    /// `<owner>/<id>.<text after the file name's last dot>`.
    pub fn finish(&self, owner: &str, audio_id: u128) -> (r: Result<PreparedUpload, ApiError>)
        ensures
            self.file_size is None ==> (r matches Err(e) && e.is_invalid_input(
                "No file provided"@,
            )),
            self.file_size is Some && !has_prefix(self.content_type@, "audio/"@) ==> (r matches Err(e)
                && e.is_invalid_input("Only audio files are allowed"@)),
            self.file_size is Some && has_prefix(self.content_type@, "audio/"@) ==> (r matches Ok(p)
                && p.object_key@ == object_key(owner@, audio_id, after_last(self.filename@, '.'))
                && p.filename@ == self.filename@ && p.content_type@ == self.content_type@
                && p.size_bytes == self.file_size->0 as i64),
    {
        let size = match self.file_size {
            Some(n) => n,
            None => {
                return Err(ApiError::invalid_input("No file provided"));
            },
        };
        if !starts_with(self.content_type.as_str(), "audio/") {
            return Err(ApiError::invalid_input("Only audio files are allowed"));
        }
        let ext = text_after_last(self.filename.as_str(), '.');
        let key = make_object_key(owner, audio_id, ext.as_str());
        Ok(
            PreparedUpload {
                object_key: key,
                filename: self.filename.clone(),
                content_type: self.content_type.clone(),
                size_bytes: size as i64,
            },
        )
    }
}

} // verus!
