//! The embeddable-file abstraction: one capability interface over two
//! implementations. A static file fixes its bytes, metadata and compressed
//! variants at construction; a dynamic file is built from a fresh read each
//! time and never carries compressed variants.

use vstd::prelude::*;
use vstd::slice::slice_to_vec;
use crate::compress::{
    brotli_of, brotli_variant, compress_br, compress_gzip, compress_zstd, gzip_of, gzip_variant,
    zstd_variant, brotli_decode, gzip_decode,
};
use crate::metadata::{
    etag_chars, extract, hash_chars, make_etag, mime_guess_of, opt_str_matches,
    render_last_modified, spec_last_modified, spec_timestamp, FileMetadata, ModTime,
};

verus! {

/// The view of an optional byte buffer.
pub open spec fn opt_bytes_view(o: Option<Vec<u8>>) -> Option<Seq<u8>> {
    match o {
        Option::Some(v) => Option::Some(v@),
        Option::None => Option::None,
    }
}

/// The view of an optional string.
pub open spec fn opt_string_view(o: Option<String>) -> Option<Seq<char>> {
    match o {
        Option::Some(s) => Option::Some(s@),
        Option::None => Option::None,
    }
}

/// An optional exec byte buffer carries exactly an optional spec buffer.
pub open spec fn opt_bytes_matches(r: Option<Vec<u8>>, v: Option<Seq<u8>>) -> bool {
    match (r, v) {
        (Option::Some(b), Option::Some(s)) => b@ == s,
        (Option::None, Option::None) => true,
        _ => false,
    }
}

/// Anything the table can serve: the file's bytes, its compressed variants
/// where they were precomputed, and its content metadata. A consumer written
/// against this interface cannot tell the two implementations apart, except
/// that the dynamic one reports every compressed variant absent.
pub trait EmbedableFile: Sized {
    /// The file's byte content.
    spec fn data_spec(&self) -> Seq<u8>;

    /// The stored gzip variant, if one was kept.
    spec fn data_gzip_spec(&self) -> Option<Seq<u8>>;

    /// The stored brotli variant, if one was kept.
    spec fn data_br_spec(&self) -> Option<Seq<u8>>;

    /// The stored zstd variant, if one was kept.
    spec fn data_zstd_spec(&self) -> Option<Seq<u8>>;

    /// The content hash text.
    spec fn hash_spec(&self) -> Seq<char>;

    /// The stored ETag text. A record built from file content carries the
    /// hash wrapped in double quotes.
    spec fn etag_spec(&self) -> Seq<char>;

    /// The signed seconds-since-epoch modification time, where available.
    spec fn last_modified_timestamp_spec(&self) -> Option<i64>;

    /// The stored textual modification time. A record built from file
    /// content carries the RFC 2822 rendering of its timestamp, where the
    /// timestamp exists and RFC 2822 can carry it.
    spec fn last_modified_spec(&self) -> Option<Seq<char>>;

    /// The MIME guess, where one is known.
    spec fn mime_type_spec(&self) -> Option<Seq<char>>;

    /// The file's bytes.
    fn data(&self) -> (r: Vec<u8>)
        ensures
            r@ == self.data_spec(),
    ;

    /// The gzip variant, absent where none was kept.
    fn data_gzip(&self) -> (r: Option<Vec<u8>>)
        ensures
            opt_bytes_matches(r, self.data_gzip_spec()),
    ;

    /// The brotli variant, absent where none was kept.
    fn data_br(&self) -> (r: Option<Vec<u8>>)
        ensures
            opt_bytes_matches(r, self.data_br_spec()),
    ;

    /// The zstd variant, absent where none was kept.
    fn data_zstd(&self) -> (r: Option<Vec<u8>>)
        ensures
            opt_bytes_matches(r, self.data_zstd_spec()),
    ;

    /// The content hash.
    fn hash(&self) -> (r: String)
        ensures
            r@ == self.hash_spec(),
    ;

    /// The ETag: the hash wrapped in double quotes.
    fn etag(&self) -> (r: String)
        ensures
            r@ == self.etag_spec(),
    ;

    /// The modification time as signed seconds since the epoch; negative
    /// before the epoch.
    fn last_modified_timestamp(&self) -> (r: Option<i64>)
        ensures
            r == self.last_modified_timestamp_spec(),
    ;

    /// The modification time as RFC 2822 text, absent where the timestamp is
    /// unavailable or outside what RFC 2822 can render.
    fn last_modified(&self) -> (r: Option<String>)
        ensures
            opt_str_matches(r, self.last_modified_spec()),
    ;

    /// The MIME guess from the path's extension; absent rather than a
    /// default where none is known.
    fn mime_type(&self) -> (r: Option<String>)
        ensures
            opt_str_matches(r, self.mime_type_spec()),
    ;
}

/// The mathematical content of a static file record.
pub struct EmbeddedFileV {
    pub data: Seq<u8>,
    pub data_gzip: Option<Seq<u8>>,
    pub data_br: Option<Seq<u8>>,
    pub data_zstd: Option<Seq<u8>>,
    pub hash: Seq<char>,
    pub etag: Seq<char>,
    pub last_modified: Option<Seq<char>>,
    pub last_modified_timestamp: Option<i64>,
    pub mime_type: Option<Seq<char>>,
}

impl EmbeddedFileV {
    /// What building a static record from a file's content promises: the
    /// bytes are kept as read; each compressed variant is present exactly
    /// when it saves enough (zstd only where it is enabled at all); and hash,
    /// ETag, MIME guess and modification times come from extraction.
    pub open spec fn built_from(
        self,
        data: Seq<u8>,
        path: Seq<char>,
        modified: Option<ModTime>,
        use_zstd: bool,
    ) -> bool {
        &&& self.data == data
        &&& self.data_gzip == gzip_variant(data)
        &&& self.data_br == brotli_variant(data)
        &&& self.data_zstd == (if use_zstd {
            zstd_variant(data)
        } else {
            Option::<Seq<u8>>::None
        })
        &&& self.hash == hash_chars(data)
        &&& self.etag == etag_chars(hash_chars(data))
        &&& self.last_modified == spec_last_modified(spec_timestamp(modified))
        &&& self.last_modified_timestamp == spec_timestamp(modified)
        &&& self.mime_type == mime_guess_of(path)
    }
}

/// A file fixed at build time: data, compressed variants and metadata are
/// all precomputed, and serving it does no work and cannot fail.
pub struct EmbeddedFile {
    data: Vec<u8>,
    data_gzip: Option<Vec<u8>>,
    data_br: Option<Vec<u8>>,
    data_zstd: Option<Vec<u8>>,
    hash: String,
    etag: String,
    last_modified: Option<String>,
    last_modified_timestamp: Option<i64>,
    mime_type: Option<String>,
}

impl View for EmbeddedFile {
    type V = EmbeddedFileV;

    closed spec fn view(&self) -> EmbeddedFileV {
        EmbeddedFileV {
            data: self.data@,
            data_gzip: opt_bytes_view(self.data_gzip),
            data_br: opt_bytes_view(self.data_br),
            data_zstd: opt_bytes_view(self.data_zstd),
            hash: self.hash@,
            etag: self.etag@,
            last_modified: opt_string_view(self.last_modified),
            last_modified_timestamp: self.last_modified_timestamp,
            mime_type: opt_string_view(self.mime_type),
        }
    }
}

impl EmbeddedFile {
    /// Assembles a static record from already-computed parts. Emitted build
    /// code hands precomputed fields through here; `from_content` is the
    /// checked way to build one from a file's bytes.
    #[allow(clippy::too_many_arguments)]
    pub fn __internal_make(
        data: Vec<u8>,
        data_gzip: Option<Vec<u8>>,
        data_br: Option<Vec<u8>>,
        data_zstd: Option<Vec<u8>>,
        hash: String,
        etag: String,
        last_modified: Option<String>,
        last_modified_timestamp: Option<i64>,
        mime_type: Option<String>,
    ) -> (r: EmbeddedFile)
        ensures
            r@.data == data@,
            r@.data_gzip == opt_bytes_view(data_gzip),
            r@.data_br == opt_bytes_view(data_br),
            r@.data_zstd == opt_bytes_view(data_zstd),
            r@.hash == hash@,
            r@.etag == etag@,
            r@.last_modified == opt_string_view(last_modified),
            r@.last_modified_timestamp == last_modified_timestamp,
            r@.mime_type == opt_string_view(mime_type),
    {
        EmbeddedFile {
            data,
            data_gzip,
            data_br,
            data_zstd,
            hash,
            etag,
            last_modified,
            last_modified_timestamp,
            mime_type,
        }
    }

    /// Builds a static record from a file's bytes, relative path and
    /// reported modification time: extracts the metadata and keeps each
    /// compressed variant exactly when it saves enough space. With
    /// `use_zstd` off no zstd variant is ever computed.
    pub fn from_content(path: &str, data: Vec<u8>, modified: Option<ModTime>, use_zstd: bool) -> (r:
        EmbeddedFile)
        ensures
            r@.built_from(data@, path@, modified, use_zstd),
    {
        let meta: FileMetadata = extract(data.as_slice(), path, modified);
        let data_gzip = compress_gzip(data.as_slice());
        let data_br = compress_br(data.as_slice());
        let data_zstd = if use_zstd {
            compress_zstd(data.as_slice())
        } else {
            None
        };
        EmbeddedFile {
            data,
            data_gzip,
            data_br,
            data_zstd,
            hash: meta.hash,
            etag: meta.etag,
            last_modified: meta.last_modified,
            last_modified_timestamp: meta.last_modified_timestamp,
            mime_type: meta.mime_type,
        }
    }
}

impl EmbedableFile for EmbeddedFile {
    open spec fn data_spec(&self) -> Seq<u8> {
        self@.data
    }

    open spec fn data_gzip_spec(&self) -> Option<Seq<u8>> {
        self@.data_gzip
    }

    open spec fn data_br_spec(&self) -> Option<Seq<u8>> {
        self@.data_br
    }

    open spec fn data_zstd_spec(&self) -> Option<Seq<u8>> {
        self@.data_zstd
    }

    open spec fn hash_spec(&self) -> Seq<char> {
        self@.hash
    }

    open spec fn etag_spec(&self) -> Seq<char> {
        self@.etag
    }

    open spec fn last_modified_timestamp_spec(&self) -> Option<i64> {
        self@.last_modified_timestamp
    }

    open spec fn last_modified_spec(&self) -> Option<Seq<char>> {
        self@.last_modified
    }

    open spec fn mime_type_spec(&self) -> Option<Seq<char>> {
        self@.mime_type
    }

    fn data(&self) -> (r: Vec<u8>) {
        slice_to_vec(self.data.as_slice())
    }

    fn data_gzip(&self) -> (r: Option<Vec<u8>>) {
        match &self.data_gzip {
            Some(v) => Some(slice_to_vec(v.as_slice())),
            None => None,
        }
    }

    fn data_br(&self) -> (r: Option<Vec<u8>>) {
        match &self.data_br {
            Some(v) => Some(slice_to_vec(v.as_slice())),
            None => None,
        }
    }

    fn data_zstd(&self) -> (r: Option<Vec<u8>>) {
        match &self.data_zstd {
            Some(v) => Some(slice_to_vec(v.as_slice())),
            None => None,
        }
    }

    fn hash(&self) -> (r: String) {
        self.hash.clone()
    }

    fn etag(&self) -> (r: String) {
        self.etag.clone()
    }

    fn last_modified_timestamp(&self) -> (r: Option<i64>) {
        self.last_modified_timestamp
    }

    fn last_modified(&self) -> (r: Option<String>) {
        match &self.last_modified {
            Some(s) => Some(s.clone()),
            None => None,
        }
    }

    fn mime_type(&self) -> (r: Option<String>) {
        match &self.mime_type {
            Some(s) => Some(s.clone()),
            None => None,
        }
    }
}

/// The mathematical content of a dynamic file record.
pub struct DynamicFileV {
    pub data: Seq<u8>,
    pub hash: Seq<char>,
    pub last_modified_timestamp: Option<i64>,
    pub mime_type: Option<Seq<char>>,
}

impl DynamicFileV {
    /// What building a dynamic record from a fresh read promises: the bytes
    /// as read, the hash of those bytes, and timestamp and MIME guess from
    /// the stat information and path. No compression is ever precomputed.
    pub open spec fn built_from(
        self,
        data: Seq<u8>,
        path: Seq<char>,
        modified: Option<ModTime>,
    ) -> bool {
        &&& self.data == data
        &&& self.hash == hash_chars(data)
        &&& self.last_modified_timestamp == spec_timestamp(modified)
        &&& self.mime_type == mime_guess_of(path)
    }
}

/// A file served from disk: holds one read's bytes and metadata, and always
/// reports every compressed variant absent. The caller rebuilds it from a
/// fresh read on each request; the ETag and the textual modification time
/// are computed on demand.
pub struct DynamicFile {
    data: Vec<u8>,
    hash: String,
    last_modified_timestamp: Option<i64>,
    mime_type: Option<String>,
}

impl View for DynamicFile {
    type V = DynamicFileV;

    closed spec fn view(&self) -> DynamicFileV {
        DynamicFileV {
            data: self.data@,
            hash: self.hash@,
            last_modified_timestamp: self.last_modified_timestamp,
            mime_type: opt_string_view(self.mime_type),
        }
    }
}

impl DynamicFile {
    /// Builds a dynamic record from one read's bytes, the path it was read
    /// under, and the reported modification time.
    pub fn from_content(path: &str, data: Vec<u8>, modified: Option<ModTime>) -> (r: DynamicFile)
        ensures
            r@.built_from(data@, path@, modified),
    {
        let meta: FileMetadata = extract(data.as_slice(), path, modified);
        DynamicFile {
            data,
            hash: meta.hash,
            last_modified_timestamp: meta.last_modified_timestamp,
            mime_type: meta.mime_type,
        }
    }
}

impl EmbedableFile for DynamicFile {
    open spec fn data_spec(&self) -> Seq<u8> {
        self@.data
    }

    open spec fn data_gzip_spec(&self) -> Option<Seq<u8>> {
        Option::None
    }

    open spec fn data_br_spec(&self) -> Option<Seq<u8>> {
        Option::None
    }

    open spec fn data_zstd_spec(&self) -> Option<Seq<u8>> {
        Option::None
    }

    open spec fn hash_spec(&self) -> Seq<char> {
        self@.hash
    }

    open spec fn etag_spec(&self) -> Seq<char> {
        etag_chars(self@.hash)
    }

    open spec fn last_modified_timestamp_spec(&self) -> Option<i64> {
        self@.last_modified_timestamp
    }

    open spec fn last_modified_spec(&self) -> Option<Seq<char>> {
        spec_last_modified(self@.last_modified_timestamp)
    }

    open spec fn mime_type_spec(&self) -> Option<Seq<char>> {
        self@.mime_type
    }

    fn data(&self) -> (r: Vec<u8>) {
        slice_to_vec(self.data.as_slice())
    }

    fn data_gzip(&self) -> (r: Option<Vec<u8>>) {
        None
    }

    fn data_br(&self) -> (r: Option<Vec<u8>>) {
        None
    }

    fn data_zstd(&self) -> (r: Option<Vec<u8>>) {
        None
    }

    fn hash(&self) -> (r: String) {
        self.hash.clone()
    }

    fn etag(&self) -> (r: String) {
        make_etag(self.hash.as_str())
    }

    fn last_modified_timestamp(&self) -> (r: Option<i64>) {
        self.last_modified_timestamp
    }

    fn last_modified(&self) -> (r: Option<String>) {
        render_last_modified(self.last_modified_timestamp)
    }

    fn mime_type(&self) -> (r: Option<String>) {
        match &self.mime_type {
            Some(s) => Some(s.clone()),
            None => None,
        }
    }
}

/// Law: the two implementations are substitutable. Built from the same read,
/// a static and a dynamic record agree on the bytes, the hash, the timestamp
/// and the MIME guess; a consumer can tell them apart only by the permanent
/// absence of the dynamic record's compressed variants.
pub proof fn lemma_static_dynamic_agree(
    fixed: EmbeddedFileV,
    dynamic: DynamicFileV,
    data: Seq<u8>,
    path: Seq<char>,
    modified: Option<ModTime>,
    use_zstd: bool,
)
    requires
        fixed.built_from(data, path, modified, use_zstd),
        dynamic.built_from(data, path, modified),
    ensures
        fixed.data == dynamic.data,
        fixed.hash == dynamic.hash,
        fixed.last_modified_timestamp == dynamic.last_modified_timestamp,
        fixed.mime_type == dynamic.mime_type,
{
}

/// Law: a dynamic file always reports its gzip, brotli and zstd variants
/// absent, whatever configuration the build ran under.
pub proof fn lemma_dynamic_never_compressed(f: DynamicFile)
    ensures
        f.data_gzip_spec() is None,
        f.data_br_spec() is None,
        f.data_zstd_spec() is None,
{
}

/// Law (round trip through a record): where a static record keeps a gzip
/// variant of its own data, decompressing that variant reproduces the data,
/// byte for byte; a record without one yields nothing.
pub fn decompressed_gzip(f: &EmbeddedFile) -> (r: Option<Vec<u8>>)
    ensures
        (f@.data_gzip matches Some(c) && c == gzip_of(f@.data)) ==> (r matches Some(v) && v@
            == f@.data),
        f@.data_gzip is None ==> r is None,
{
    match &f.data_gzip {
        Some(c) => gzip_decode(c.as_slice()),
        None => None,
    }
}

/// Law (round trip through a record): where a static record keeps a brotli
/// variant of its own data, decompressing that variant reproduces the data,
/// byte for byte; a record without one yields nothing.
pub fn decompressed_br(f: &EmbeddedFile) -> (r: Option<Vec<u8>>)
    ensures
        (f@.data_br matches Some(c) && c == brotli_of(f@.data)) ==> (r matches Some(v) && v@
            == f@.data),
        f@.data_br is None ==> r is None,
{
    match &f.data_br {
        Some(c) => brotli_decode(c.as_slice()),
        None => None,
    }
}

} // verus!
