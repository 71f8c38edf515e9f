//! Compression engine: for each supported algorithm, compresses a buffer and
//! keeps the result only when it is strictly smaller than 95% of the
//! original, so that a variant that saves next to nothing (or grows) is never
//! stored.

use vstd::prelude::*;

verus! {

/// The bytes the gzip encoder (flate2, default level) produces for `data`.
/// The encoding depends on the input bytes alone: flate2 writes a fixed
/// header (zero mtime, unknown-OS byte) for reproducible streams.
pub uninterp spec fn gzip_of(data: Seq<u8>) -> Seq<u8>;

/// The bytes the brotli encoder (default parameters) produces for `data`.
pub uninterp spec fn brotli_of(data: Seq<u8>) -> Seq<u8>;

/// The bytes the zstd encoder at level 3 produces for `data`.
pub uninterp spec fn zstd_of(data: Seq<u8>) -> Seq<u8>;

/// The inclusion threshold: a variant of `compressed_len` bytes is worth
/// keeping for an original of `original_len` bytes exactly when it is
/// strictly smaller than 95% of the original.
pub open spec fn saves_enough(compressed_len: nat, original_len: nat) -> bool {
    20 * compressed_len < 19 * original_len
}

/// The gzip variant the engine stores for `data`, if any.
pub open spec fn gzip_variant(data: Seq<u8>) -> Option<Seq<u8>> {
    if saves_enough(gzip_of(data).len(), data.len()) {
        Some(gzip_of(data))
    } else {
        None
    }
}

/// The brotli variant the engine stores for `data`, if any.
pub open spec fn brotli_variant(data: Seq<u8>) -> Option<Seq<u8>> {
    if saves_enough(brotli_of(data).len(), data.len()) {
        Some(brotli_of(data))
    } else {
        None
    }
}

/// The zstd variant the engine stores for `data`, if any (when zstd is
/// enabled at all; a build with zstd switched off stores none).
pub open spec fn zstd_variant(data: Seq<u8>) -> Option<Seq<u8>> {
    if saves_enough(zstd_of(data).len(), data.len()) {
        Some(zstd_of(data))
    } else {
        None
    }
}

/// Law: a compressed variant is stored exactly when its length is strictly
/// less than 95% of the original length, and what is stored is the encoder's
/// exact output for the original bytes.
pub proof fn lemma_variant_kept_iff_saves(data: Seq<u8>)
    ensures
        gzip_variant(data) is Some <==> 20 * gzip_of(data).len() < 19 * data.len(),
        gzip_variant(data) matches Some(c) ==> c == gzip_of(data),
        brotli_variant(data) is Some <==> 20 * brotli_of(data).len() < 19 * data.len(),
        brotli_variant(data) matches Some(c) ==> c == brotli_of(data),
        zstd_variant(data) is Some <==> 20 * zstd_of(data).len() < 19 * data.len(),
        zstd_variant(data) matches Some(c) ==> c == zstd_of(data),
{
}

/// Relies on flate2's `write::GzEncoder` at the default compression level.
/// An encoder failure does not depend on the input and aborts the build, as
/// an unrecoverable environment problem.
#[verifier::external_body]
fn gzip_encode(data: &[u8]) -> (r: Vec<u8>)
    ensures
        r@ == gzip_of(data@),
{
    let mut out: Vec<u8> = Vec::new();
    let mut encoder = flate2::write::GzEncoder::new(&mut out, flate2::Compression::default());
    std::io::Write::write_all(&mut encoder, data).expect("failed to compress gzip data");
    encoder.finish().expect("failed to finish compression of gzip data");
    out
}

/// The gzip decoder's answer `r` on `input` inverts the encoder: wherever
/// `input` is the gzip encoding of a buffer, `r` holds that buffer.
pub open spec fn inverts_gzip(input: Seq<u8>, r: Option<Vec<u8>>) -> bool {
    forall|d: Seq<u8>| input == #[trigger] gzip_of(d) ==> (r matches Some(v) && v@ == d)
}

/// The brotli decoder's answer `r` on `input` inverts the encoder.
pub open spec fn inverts_brotli(input: Seq<u8>, r: Option<Vec<u8>>) -> bool {
    forall|d: Seq<u8>| input == #[trigger] brotli_of(d) ==> (r matches Some(v) && v@ == d)
}

/// The zstd decoder's answer `r` on `input` inverts the encoder.
pub open spec fn inverts_zstd(input: Seq<u8>, r: Option<Vec<u8>>) -> bool {
    forall|d: Seq<u8>| input == #[trigger] zstd_of(d) ==> (r matches Some(v) && v@ == d)
}

/// Relies on flate2's `write::GzDecoder`: decoding inverts `GzEncoder`, so
/// feeding it the encoding of any buffer returns that buffer.
#[verifier::external_body]
pub(crate) fn gzip_decode(data: &[u8]) -> (r: Option<Vec<u8>>)
    ensures
        inverts_gzip(data@, r),
{
    let mut out: Vec<u8> = Vec::new();
    let mut decoder = flate2::write::GzDecoder::new(&mut out);
    if std::io::Write::write_all(&mut decoder, data).is_err() {
        return None;
    }
    if decoder.finish().is_err() {
        return None;
    }
    Some(out)
}

/// Relies on `brotli::BrotliCompress` with `BrotliEncoderParams::default()`.
/// An encoder failure does not depend on the input and aborts the build.
#[verifier::external_body]
fn brotli_encode(data: &[u8]) -> (r: Vec<u8>)
    ensures
        r@ == brotli_of(data@),
{
    let mut input = data;
    let mut out: Vec<u8> = Vec::new();
    brotli::BrotliCompress(&mut input, &mut out, &brotli::enc::BrotliEncoderParams::default())
        .expect("failed to compress brotli data");
    out
}

/// Relies on `brotli::BrotliDecompress`: decoding inverts `BrotliCompress`,
/// so feeding it the encoding of any buffer returns that buffer.
#[verifier::external_body]
pub(crate) fn brotli_decode(data: &[u8]) -> (r: Option<Vec<u8>>)
    ensures
        inverts_brotli(data@, r),
{
    let mut input = data;
    let mut out: Vec<u8> = Vec::new();
    match brotli::BrotliDecompress(&mut input, &mut out) {
        Ok(_) => Some(out),
        Err(_) => None,
    }
}

/// Relies on `zstd::stream::encode_all` at level 3. An encoder failure does
/// not depend on the input and aborts the build.
#[verifier::external_body]
fn zstd_encode(data: &[u8]) -> (r: Vec<u8>)
    ensures
        r@ == zstd_of(data@),
{
    zstd::stream::encode_all(data, 3).expect("failed to compress zstd data")
}

/// Relies on `zstd::stream::decode_all`: decoding inverts `encode_all`, so
/// feeding it the encoding of any buffer returns that buffer.
#[verifier::external_body]
fn zstd_decode(data: &[u8]) -> (r: Option<Vec<u8>>)
    ensures
        inverts_zstd(data@, r),
{
    match zstd::stream::decode_all(data) {
        Ok(out) => Some(out),
        Err(_) => None,
    }
}

/// Whether a variant of `compressed_len` bytes is kept for an original of
/// `original_len` bytes: strictly smaller than 95% of the original.
fn keeps_variant(compressed_len: usize, original_len: usize) -> (r: bool)
    ensures
        r == saves_enough(compressed_len as nat, original_len as nat),
{
    (compressed_len as u128) * 20 < (original_len as u128) * 19
}

/// Compresses `data` with gzip and returns the result exactly when it is
/// strictly smaller than 95% of the original.
pub fn compress_gzip(data: &[u8]) -> (r: Option<Vec<u8>>)
    ensures
        r is Some <==> saves_enough(gzip_of(data@).len(), data@.len()),
        r matches Some(c) ==> c@ == gzip_of(data@),
        match r {
            Some(c) => gzip_variant(data@) == Some(c@),
            None => gzip_variant(data@) is None,
        },
{
    let compressed = gzip_encode(data);
    if keeps_variant(compressed.len(), data.len()) {
        Some(compressed)
    } else {
        None
    }
}

/// Compresses `data` with brotli and returns the result exactly when it is
/// strictly smaller than 95% of the original.
pub fn compress_br(data: &[u8]) -> (r: Option<Vec<u8>>)
    ensures
        r is Some <==> saves_enough(brotli_of(data@).len(), data@.len()),
        r matches Some(c) ==> c@ == brotli_of(data@),
        match r {
            Some(c) => brotli_variant(data@) == Some(c@),
            None => brotli_variant(data@) is None,
        },
{
    let compressed = brotli_encode(data);
    if keeps_variant(compressed.len(), data.len()) {
        Some(compressed)
    } else {
        None
    }
}

/// Compresses `data` with zstd (level 3) and returns the result exactly when
/// it is strictly smaller than 95% of the original.
pub fn compress_zstd(data: &[u8]) -> (r: Option<Vec<u8>>)
    ensures
        r is Some <==> saves_enough(zstd_of(data@).len(), data@.len()),
        r matches Some(c) ==> c@ == zstd_of(data@),
        match r {
            Some(c) => zstd_variant(data@) == Some(c@),
            None => zstd_variant(data@) is None,
        },
{
    let compressed = zstd_encode(data);
    if keeps_variant(compressed.len(), data.len()) {
        Some(compressed)
    } else {
        None
    }
}

/// Law: gzip round-trips. Decoding the encoding of any buffer yields the
/// buffer again, byte for byte.
pub fn gzip_round_trip(data: &[u8]) -> (r: Vec<u8>)
    ensures
        r@ == data@,
{
    let compressed = gzip_encode(data);
    match gzip_decode(compressed.as_slice()) {
        Some(v) => v,
        None => vstd::pervasive::unreached(),
    }
}

/// Law: brotli round-trips. Decoding the encoding of any buffer yields the
/// buffer again, byte for byte.
pub fn brotli_round_trip(data: &[u8]) -> (r: Vec<u8>)
    ensures
        r@ == data@,
{
    let compressed = brotli_encode(data);
    match brotli_decode(compressed.as_slice()) {
        Some(v) => v,
        None => vstd::pervasive::unreached(),
    }
}

/// Law: zstd round-trips. Decoding the encoding of any buffer yields the
/// buffer again, byte for byte.
pub fn zstd_round_trip(data: &[u8]) -> (r: Vec<u8>)
    ensures
        r@ == data@,
{
    let compressed = zstd_encode(data);
    match zstd_decode(compressed.as_slice()) {
        Some(v) => v,
        None => vstd::pervasive::unreached(),
    }
}

} // verus!
