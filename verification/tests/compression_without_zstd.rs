use std::io::{BufReader, Write};

use embed_registry::config::Config;
use embed_registry::file::EmbedableFile;
use embed_registry::metadata::ModTime;
use embed_registry::registry::{Registry, SourceFile};
use flate2::write::GzDecoder;

fn html_bytes() -> Vec<u8> {
    let mut s = String::from("<!DOCTYPE html>\n<html><head><title>sample</title></head><body>\n");
    while s.len() < 1900 {
        s.push_str("<p>lorem ipsum dolor sit amet, consectetur adipiscing elit</p>\n");
    }
    s.push_str("</body></html>\n");
    s.into_bytes()
}

fn jpeg_like_bytes() -> Vec<u8> {
    let mut v = Vec::with_capacity(50000);
    let mut x: u64 = 0x243F6A8885A308D3;
    for _ in 0..50000 {
        x = x.wrapping_mul(6364136223846793005).wrapping_add(1442695040888963407);
        v.push((x >> 33) as u8);
    }
    v
}

fn sample_files() -> Vec<SourceFile> {
    vec![
        SourceFile {
            rel_path: "index.html".to_string(),
            data: html_bytes(),
            modified: Some(ModTime { after_epoch: true, secs: 1700000000 }),
        },
        SourceFile {
            rel_path: "images/flower.jpg".to_string(),
            data: jpeg_like_bytes(),
            modified: Some(ModTime { after_epoch: true, secs: 1700000000 }),
        },
    ]
}

// A build without the zstd encoder, as a build profile without it would run.
fn build_without_zstd() -> Registry {
    let mut config = Config::new("examples/public".to_string());
    config.zstd_supported = false;
    Registry::build(&sample_files(), &config).unwrap()
}

#[test]
fn html_files_gzip_and_br_compression() {
    assert!(build_without_zstd().get("index.html").unwrap().data_gzip().is_some());
    assert!(build_without_zstd().get("index.html").unwrap().data_br().is_some());
}

#[test]
fn zstd_behavior_without_feature() {
    assert!(build_without_zstd().get("index.html").unwrap().data_zstd().is_none());
}

#[test]
fn image_files_are_not_compressed() {
    let registry = build_without_zstd();
    assert!(registry.get("images/flower.jpg").unwrap().data_gzip().is_none());
    assert!(registry.get("images/flower.jpg").unwrap().data_br().is_none());
    assert!(registry.get("images/flower.jpg").unwrap().data_zstd().is_none());
}

#[test]
fn compression_gzip_roundtrip() {
    let registry = build_without_zstd();
    let compressed = registry.get("index.html").unwrap().data_gzip().unwrap();
    let mut decompressed: Vec<u8> = Vec::new();
    let mut decoder = GzDecoder::new(&mut decompressed);
    decoder.write_all(&compressed).unwrap();
    decoder.finish().unwrap();
    let decompressed_body = String::from_utf8_lossy(&decompressed[..]);
    assert!(decompressed_body.starts_with("<!DOCTYPE html>"));
}

#[test]
fn compression_br_roundtrip() {
    let registry = build_without_zstd();
    let compressed = registry.get("index.html").unwrap().data_br().unwrap();
    let mut decompressed: Vec<u8> = Vec::new();
    let mut data_read = BufReader::new(&compressed[..]);
    brotli::BrotliDecompress(&mut data_read, &mut decompressed).unwrap();
    let decompressed_body = String::from_utf8_lossy(&decompressed[..]);
    assert!(decompressed_body.starts_with("<!DOCTYPE html>"));
}
