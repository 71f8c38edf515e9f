use embed_registry::compress::{brotli_round_trip, gzip_round_trip, zstd_round_trip};
use embed_registry::config::{select_mode, Config, Mode};
use embed_registry::file::{decompressed_br, decompressed_gzip, DynamicFile, EmbedableFile};
use embed_registry::filter::try_is_path_included;
use embed_registry::metadata::{extract, ModTime};
use embed_registry::paths::normalize_separators;
use embed_registry::registry::{BuildError, Registry, SourceFile};

fn html_bytes() -> Vec<u8> {
    let mut s = String::from("<!DOCTYPE html>\n<html><head><title>sample</title></head><body>\n");
    while s.len() < 1900 {
        s.push_str("<p>lorem ipsum dolor sit amet, consectetur adipiscing elit</p>\n");
    }
    s.push_str("</body></html>\n");
    s.into_bytes()
}

fn jpeg_like_bytes() -> Vec<u8> {
    let mut v = Vec::with_capacity(50000);
    let mut x: u64 = 0x243F6A8885A308D3;
    for _ in 0..50000 {
        x = x.wrapping_mul(6364136223846793005).wrapping_add(1442695040888963407);
        v.push((x >> 33) as u8);
    }
    v
}

fn mtime() -> Option<ModTime> {
    Some(ModTime { after_epoch: true, secs: 1700000000 })
}

fn sample_files() -> Vec<SourceFile> {
    vec![
        SourceFile { rel_path: "index.html".to_string(), data: html_bytes(), modified: mtime() },
        SourceFile {
            rel_path: "images/flower.jpg".to_string(),
            data: jpeg_like_bytes(),
            modified: mtime(),
        },
    ]
}

// The exclude-pattern scenario: no includes, one exclude over the images.
#[test]
fn exclude_pattern_drops_matching_files() {
    let mut config = Config::new("examples/public".to_string());
    config.add_exclude("images/*".to_string());
    let registry = Registry::build(&sample_files(), &config).unwrap();
    assert!(registry.get("images/flower.jpg").is_none());
    assert!(registry.get("index.html").is_some());
}

// Excludes dominate: a file both an include and an exclude pattern match
// stays out.
#[test]
fn excludes_dominate_includes() {
    let mut config = Config::new("examples/public".to_string());
    config.add_include("images/*".to_string());
    config.add_exclude("images/*".to_string());
    let registry = Registry::build(&sample_files(), &config).unwrap();
    assert!(registry.get("images/flower.jpg").is_none());
}

// With no includes configured, a file no exclude matches is present.
#[test]
fn unmatched_files_default_accept() {
    let mut config = Config::new("examples/public".to_string());
    config.add_exclude("*.txt".to_string());
    let registry = Registry::build(&sample_files(), &config).unwrap();
    assert!(registry.get("index.html").is_some());
    assert!(registry.get("images/flower.jpg").is_some());
}

// With includes configured, only matching files are present.
#[test]
fn includes_restrict_the_set() {
    let mut config = Config::new("examples/public".to_string());
    config.add_include("*.html".to_string());
    let registry = Registry::build(&sample_files(), &config).unwrap();
    assert!(registry.get("index.html").is_some());
    assert!(registry.get("images/flower.jpg").is_none());
}

// An invalid glob pattern is a configuration error that fails the build.
#[test]
fn invalid_pattern_fails_build() {
    let mut config = Config::new("examples/public".to_string());
    config.add_exclude("images[".to_string());
    let result = Registry::build(&sample_files(), &config);
    assert_eq!(result.err(), Some(BuildError::InvalidPattern));
    assert_eq!(config.should_include("index.html"), None);
}

// Filtering switched off entirely passes every path through, whatever the
// patterns say.
#[test]
fn disabled_filter_passes_everything() {
    let mut config = Config::new("examples/public".to_string());
    config.add_exclude("images/*".to_string());
    config.filter_enabled = false;
    let registry = Registry::build(&sample_files(), &config).unwrap();
    assert!(registry.get("images/flower.jpg").is_some());
}

// The filter contract on its own: excludes first, default-accept on empty
// includes, otherwise at least one include must match.
#[test]
fn path_filter_precedence() {
    assert_eq!(try_is_path_included("a/b.html", &["*.html", "a/**"], &[]), Some(true));
    assert_eq!(try_is_path_included("a/b.html", &[], &["a/*.html"]), Some(false));
    assert_eq!(try_is_path_included("a/b.html", &[], &[]), Some(true));
    assert_eq!(try_is_path_included("a/b.js", &["*.html"], &[]), Some(false));
    assert_eq!(try_is_path_included("a/b.html", &["b["], &[]), None);
}

// The compressible-versus-dense scenario: the small HTML file keeps a gzip
// variant well under its size, the dense image keeps none, and the two
// hashes are non-empty and differ.
#[test]
fn compressible_and_dense_scenario() {
    let config = Config::new("examples/public".to_string());
    let registry = Registry::build(&sample_files(), &config).unwrap();
    let html = registry.get("index.html").unwrap();
    let image = registry.get("images/flower.jpg").unwrap();

    let html_gzip = html.data_gzip().unwrap();
    assert!(html_gzip.len() * 20 < html.data().len() * 19);
    assert!(image.data_gzip().is_none());

    assert!(!html.hash().is_empty());
    assert!(!image.hash().is_empty());
    assert_ne!(html.hash(), image.hash());
}

// The hash is a pure function of byte content: identical bytes under
// different paths and timestamps carry identical hash and ETag, and a
// rebuild reproduces them.
#[test]
fn hash_depends_on_content_alone() {
    let files = vec![
        SourceFile { rel_path: "a/one.bin".to_string(), data: html_bytes(), modified: mtime() },
        SourceFile {
            rel_path: "two.html".to_string(),
            data: html_bytes(),
            modified: Some(ModTime { after_epoch: false, secs: 12345 }),
        },
    ];
    let config = Config::new("examples/public".to_string());
    let registry = Registry::build(&files, &config).unwrap();
    let one = registry.get("a/one.bin").unwrap();
    let two = registry.get("two.html").unwrap();
    assert_eq!(one.hash(), two.hash());
    assert_eq!(one.etag(), two.etag());

    let again = Registry::build(&files, &config).unwrap();
    assert_eq!(again.get("two.html").unwrap().hash(), two.hash());
}

// The hash is the base85 text of a SHA-256 digest: 40 characters; the ETag
// is the hash wrapped in double quotes.
#[test]
fn hash_and_etag_shape() {
    let meta = extract(&html_bytes(), "index.html", mtime());
    assert_eq!(meta.hash.chars().count(), 40);
    assert_eq!(meta.etag, format!("\"{}\"", meta.hash));
}

// MIME guesses come from the extension, and an unknown extension yields
// absent rather than a default.
#[test]
fn mime_type_guesses() {
    let meta = extract(b"x", "index.html", None);
    assert_eq!(meta.mime_type.as_deref(), Some("text/html"));
    let txt = extract(b"x", "images/doc.txt", None);
    assert_eq!(txt.mime_type.as_deref(), Some("text/plain"));
    let unknown = extract(b"x", "strange.zzyyxx", None);
    assert_eq!(unknown.mime_type, None);
}

// Timestamps: seconds after the epoch count forward, seconds before it give
// a negative count rather than an error, and the textual form renders both.
#[test]
fn timestamps_both_sides_of_the_epoch() {
    let after = extract(b"x", "f", Some(ModTime { after_epoch: true, secs: 0 }));
    assert_eq!(after.last_modified_timestamp, Some(0));
    assert_eq!(after.last_modified.as_deref(), Some("Thu, 1 Jan 1970 00:00:00 +0000"));

    let before = extract(b"x", "f", Some(ModTime { after_epoch: false, secs: 100 }));
    assert_eq!(before.last_modified_timestamp, Some(-100));
    assert_eq!(before.last_modified.as_deref(), Some("Wed, 31 Dec 1969 23:58:20 +0000"));

    let missing = extract(b"x", "f", None);
    assert_eq!(missing.last_modified_timestamp, None);
    assert_eq!(missing.last_modified, None);
}

// A modification time too large for a signed 64-bit count, or whose year
// RFC 2822 cannot carry, yields absent fields rather than an error.
#[test]
fn timestamp_edge_cases() {
    let huge = extract(b"x", "f", Some(ModTime { after_epoch: true, secs: u64::MAX }));
    assert_eq!(huge.last_modified_timestamp, None);
    assert_eq!(huge.last_modified, None);

    let far_future = extract(b"x", "f", Some(ModTime { after_epoch: true, secs: 260000000000 }));
    assert_eq!(far_future.last_modified_timestamp, Some(260000000000));
    assert_eq!(far_future.last_modified, None);

    let far_past = extract(b"x", "f", Some(ModTime { after_epoch: false, secs: 63000000000 }));
    assert_eq!(far_past.last_modified_timestamp, Some(-63000000000));
    assert_eq!(far_past.last_modified, None);
}

// Table keys use forward slashes even where the scan reported backslashes.
#[test]
fn backslash_separators_are_normalized() {
    assert_eq!(normalize_separators("win\\sub\\style.css"), "win/sub/style.css");
    let files = vec![SourceFile {
        rel_path: "win\\sub\\style.css".to_string(),
        data: b"body {}".to_vec(),
        modified: None,
    }];
    let config = Config::new("examples/public".to_string());
    let registry = Registry::build(&files, &config).unwrap();
    assert!(registry.get("win/sub/style.css").is_some());
    assert!(registry.get("win\\sub\\style.css").is_none());
}

// Lookup is an exact, case-sensitive match.
#[test]
fn lookup_is_exact_and_case_sensitive() {
    let config = Config::new("examples/public".to_string());
    let registry = Registry::build(&sample_files(), &config).unwrap();
    assert!(registry.get("INDEX.HTML").is_none());
    assert!(registry.get("index.htm").is_none());
    assert!(registry.get("images/").is_none());
    assert_eq!(registry.len(), 2);
}

// Each encoder round-trips: decoding the encoding of a buffer yields the
// buffer again.
#[test]
fn encoders_round_trip() {
    let data = html_bytes();
    assert_eq!(gzip_round_trip(&data), data);
    assert_eq!(brotli_round_trip(&data), data);
    assert_eq!(zstd_round_trip(&data), data);
    let dense = jpeg_like_bytes();
    assert_eq!(gzip_round_trip(&dense), dense);
    assert_eq!(brotli_round_trip(&dense), dense);
    assert_eq!(zstd_round_trip(&dense), dense);
}

// Stored variants round-trip through a built record: decompressing the kept
// gzip or brotli variant reproduces the record's own data.
#[test]
fn stored_variants_decompress_to_data() {
    let config = Config::new("examples/public".to_string());
    let registry = Registry::build(&sample_files(), &config).unwrap();
    let html = registry.get("index.html").unwrap();
    assert_eq!(decompressed_gzip(html).unwrap(), html.data());
    assert_eq!(decompressed_br(html).unwrap(), html.data());
    let image = registry.get("images/flower.jpg").unwrap();
    assert_eq!(decompressed_gzip(image), None);
    assert_eq!(decompressed_br(image), None);
}

// The zstd variant also decodes back to the data (checked with the encoder's
// own decoder, which the library does not wrap for serving).
#[test]
fn zstd_variant_decodes_to_data() {
    let config = Config::new("examples/public".to_string());
    let registry = Registry::build(&sample_files(), &config).unwrap();
    let html = registry.get("index.html").unwrap();
    let variant = html.data_zstd().unwrap();
    let decoded = zstd::stream::decode_all(&variant[..]).unwrap();
    assert_eq!(decoded, html.data());
}

// A dynamic record carries the same metadata the static one would, computes
// its ETag on demand, and serves its bytes back.
#[test]
fn dynamic_record_metadata() {
    let file = DynamicFile::from_content("index.html", html_bytes(), mtime());
    assert_eq!(file.data(), html_bytes());
    assert_eq!(file.hash().chars().count(), 40);
    assert_eq!(file.etag(), format!("\"{}\"", file.hash()));
    assert_eq!(file.mime_type().as_deref(), Some("text/html"));
    assert_eq!(file.last_modified_timestamp(), Some(1700000000));
    assert!(file.last_modified().is_some());
}

// Static and dynamic records agree on everything but the compressed
// variants.
#[test]
fn static_and_dynamic_agree() {
    let config = Config::new("examples/public".to_string());
    let registry = Registry::build(&sample_files(), &config).unwrap();
    let fixed = registry.get("index.html").unwrap();
    let dynamic = DynamicFile::from_content("index.html", html_bytes(), mtime());
    assert_eq!(fixed.data(), dynamic.data());
    assert_eq!(fixed.hash(), dynamic.hash());
    assert_eq!(fixed.etag(), dynamic.etag());
    assert_eq!(fixed.mime_type(), dynamic.mime_type());
    assert_eq!(fixed.last_modified_timestamp(), dynamic.last_modified_timestamp());
    assert_eq!(fixed.last_modified(), dynamic.last_modified());
}

// The delivery mode follows the build profile, with an override that forces
// static delivery in a rapid-iteration build too.
#[test]
fn mode_selection() {
    assert_eq!(select_mode(true, false), Mode::Static);
    assert_eq!(select_mode(true, true), Mode::Static);
    assert_eq!(select_mode(false, true), Mode::Static);
    assert_eq!(select_mode(false, false), Mode::Dynamic);
}
