//! Metadata extraction: given a file's bytes and its stat information as
//! plain values, computes the content hash and ETag, a MIME guess from the
//! path's extension, and the last-modified timestamp in both numeric and
//! RFC 2822 textual form. Nothing here reads the filesystem.

use vstd::prelude::*;
use vstd::string::StringExecFns;

verus! {

/// The 32-byte digest sha2's `Sha256` computes for `data`: a function of the
/// byte content alone.
pub uninterp spec fn sha256_of(data: Seq<u8>) -> Seq<u8>;

/// The text `base85rs::encode` produces for `data`: a function of the bytes
/// alone.
pub uninterp spec fn base85_of(data: Seq<u8>) -> Seq<char>;

/// The first MIME guess `new_mime_guess` makes for a path: a table lookup on
/// the path's extension, from the path text alone; `None` where no type is
/// known.
pub uninterp spec fn mime_guess_of(path: Seq<char>) -> Option<Seq<char>>;

/// The RFC 2822 rendering chrono gives the UTC date `ts` seconds from the
/// Unix epoch: a function of the seconds alone.
pub uninterp spec fn rfc2822_of(ts: i64) -> Seq<char>;

/// The content hash in its stored textual form: the SHA-256 digest of the
/// bytes, rendered in base85.
pub open spec fn hash_chars(data: Seq<u8>) -> Seq<char> {
    base85_of(sha256_of(data))
}

/// The ETag is the hash wrapped in double quotes.
pub open spec fn etag_chars(hash: Seq<char>) -> Seq<char> {
    seq!['"'] + hash + seq!['"']
}

/// An optional exec string carries exactly an optional spec text.
pub open spec fn opt_str_matches(r: Option<String>, v: Option<Seq<char>>) -> bool {
    match (r, v) {
        (Some(s), Some(t)) => s@ == t,
        (None, None) => true,
        _ => false,
    }
}

/// Relies on sha2's `Sha256`: a 32-byte digest computed from the input bytes
/// alone.
#[verifier::external_body]
fn sha256(data: &[u8]) -> (r: Vec<u8>)
    ensures
        r@ == sha256_of(data@),
        r@.len() == 32,
{
    let digest = <sha2::Sha256 as sha2::Digest>::digest(data);
    digest.to_vec()
}

/// Relies on `base85rs::encode` (the RFC 1924 variant): the text depends on
/// the input bytes alone; each full 4-byte group yields 5 characters and a
/// final partial group of k bytes yields k + 1.
#[verifier::external_body]
fn base85_encode(data: &[u8]) -> (r: String)
    ensures
        r@ == base85_of(data@),
        r@.len() == data@.len() + (data@.len() + 3) / 4,
{
    base85rs::encode(data)
}

/// Relies on `new_mime_guess::from_path` and `MimeGuess::first_raw`: the
/// first guess for a path is looked up from its extension alone, and is
/// absent for an extension no type is registered for.
#[verifier::external_body]
fn mime_guess_first(path: &str) -> (r: Option<String>)
    ensures
        opt_str_matches(r, mime_guess_of(path@)),
{
    new_mime_guess::from_path(path).first_raw().map(|s| s.to_owned())
}

/// Epoch seconds whose UTC date RFC 2822 can render: years 0 through 9999.
pub open spec fn rfc2822_renderable(ts: int) -> bool {
    -62167219200 <= ts <= 253402300799
}

/// Relies on chrono: `TimeZone::timestamp_opt` on `Utc` turns epoch seconds
/// into a UTC datetime and `DateTime::to_rfc2822` renders it, from the
/// seconds alone. `to_rfc2822` panics on years outside 0..=9999, so those
/// seconds are left out here and rendered as absent by the caller.
#[verifier::external_body]
fn rfc2822_utc(ts: i64) -> (r: String)
    requires
        rfc2822_renderable(ts as int),
    ensures
        r@ == rfc2822_of(ts),
{
    chrono::TimeZone::timestamp_opt(&chrono::Utc, ts, 0).unwrap().to_rfc2822()
}

/// A file's modification time as the filesystem reports it: a whole number
/// of seconds at or after the Unix epoch, or before it.
#[derive(Clone, Copy, PartialEq, Eq, Structural)]
pub struct ModTime {
    /// Whether the time lies at or after the Unix epoch.
    pub after_epoch: bool,
    /// Whole seconds between the time and the epoch, in that direction.
    pub secs: u64,
}

/// The signed epoch offset for a reported modification time: seconds after
/// the epoch count forward, seconds before it count backward, and an offset
/// too large for a signed 64-bit count is unavailable.
pub open spec fn spec_timestamp(modified: Option<ModTime>) -> Option<i64> {
    match modified {
        Option::None => Option::None,
        Option::Some(t) => if t.secs <= i64::MAX {
            if t.after_epoch {
                Option::Some(t.secs as i64)
            } else {
                Option::Some((-(t.secs as int)) as i64)
            }
        } else {
            Option::None
        },
    }
}

/// The signed seconds-since-epoch for a reported modification time. A time
/// before the epoch yields a negative count rather than an error.
pub fn modified_unix_timestamp(modified: Option<ModTime>) -> (r: Option<i64>)
    ensures
        r == spec_timestamp(modified),
{
    match modified {
        None => None,
        Some(t) => {
            if t.secs <= i64::MAX as u64 {
                if t.after_epoch {
                    Some(t.secs as i64)
                } else {
                    Some(-(t.secs as i64))
                }
            } else {
                None
            }
        },
    }
}

/// The stored textual form of a timestamp: its RFC 2822 rendering, or absent
/// where there is no timestamp or its year falls outside what RFC 2822 can
/// carry.
pub open spec fn spec_last_modified(ts: Option<i64>) -> Option<Seq<char>> {
    match ts {
        Option::None => Option::None,
        Option::Some(t) => if rfc2822_renderable(t as int) {
            Option::Some(rfc2822_of(t))
        } else {
            Option::None
        },
    }
}

/// Renders a timestamp as RFC 2822 text, or absent where it cannot be.
pub fn render_last_modified(ts: Option<i64>) -> (r: Option<String>)
    ensures
        opt_str_matches(r, spec_last_modified(ts)),
{
    match ts {
        None => None,
        Some(t) => {
            if -62167219200i64 <= t && t <= 253402300799i64 {
                Some(rfc2822_utc(t))
            } else {
                None
            }
        },
    }
}

/// Builds the content hash: SHA-256 over the complete bytes, in base85 text.
pub fn make_hash(data: &[u8]) -> (r: String)
    ensures
        r@ == hash_chars(data@),
        r@.len() == 40,
{
    let digest = sha256(data);
    base85_encode(digest.as_slice())
}

/// Wraps a hash in double quotes, the ETag form.
pub fn make_etag(hash: &str) -> (r: String)
    ensures
        r@ == etag_chars(hash@),
{
    let mut out = String::new();
    out.push('"');
    out.append(hash);
    out.push('"');
    proof {
        assert(out@ =~= etag_chars(hash@));
    }
    out
}

/// One file's content and identity attributes. The hash and ETag are always
/// present; the other fields are independently absent where the platform or
/// the path gives nothing.
pub struct FileMetadata {
    pub hash: String,
    pub etag: String,
    pub mime_type: Option<String>,
    pub last_modified_timestamp: Option<i64>,
    pub last_modified: Option<String>,
}

impl FileMetadata {
    /// What extraction promises for a file with these bytes, this (relative)
    /// path, and this reported modification time.
    pub open spec fn extracted_from(
        &self,
        data: Seq<u8>,
        path: Seq<char>,
        modified: Option<ModTime>,
    ) -> bool {
        &&& self.hash@ == hash_chars(data)
        &&& self.etag@ == etag_chars(hash_chars(data))
        &&& opt_str_matches(self.mime_type, mime_guess_of(path))
        &&& self.last_modified_timestamp == spec_timestamp(modified)
        &&& opt_str_matches(self.last_modified, spec_last_modified(spec_timestamp(modified)))
    }
}

/// Computes a file's metadata from already-read bytes and already-obtained
/// stat information; nothing is read from the filesystem here.
pub fn extract(data: &[u8], path: &str, modified: Option<ModTime>) -> (r: FileMetadata)
    ensures
        r.extracted_from(data@, path@, modified),
{
    let hash = make_hash(data);
    let etag = make_etag(hash.as_str());
    let mime_type = mime_guess_first(path);
    let last_modified_timestamp = modified_unix_timestamp(modified);
    let last_modified = render_last_modified(last_modified_timestamp);
    FileMetadata { hash, etag, mime_type, last_modified_timestamp, last_modified }
}

/// Law: the hash is a pure function of byte content. Two extractions over
/// identical bytes carry identical hash and ETag, whatever their paths and
/// timestamps; re-running extraction on unchanged bytes reproduces them.
pub proof fn lemma_hash_pure(
    a: FileMetadata,
    b: FileMetadata,
    data: Seq<u8>,
    path_a: Seq<char>,
    path_b: Seq<char>,
    modified_a: Option<ModTime>,
    modified_b: Option<ModTime>,
)
    requires
        a.extracted_from(data, path_a, modified_a),
        b.extracted_from(data, path_b, modified_b),
    ensures
        a.hash@ == b.hash@,
        a.etag@ == b.etag@,
{
}

} // verus!
