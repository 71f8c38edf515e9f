use embed_registry::config::Config;
use embed_registry::metadata::ModTime;
use embed_registry::registry::{Registry, SourceFile};

fn html_bytes() -> Vec<u8> {
    let mut s = String::from("<!DOCTYPE html>\n<html><head><title>sample</title></head><body>\n");
    while s.len() < 1900 {
        s.push_str("<p>lorem ipsum dolor sit amet, consectetur adipiscing elit</p>\n");
    }
    s.push_str("</body></html>\n");
    s.into_bytes()
}

fn jpeg_like_bytes() -> Vec<u8> {
    let mut v = Vec::with_capacity(50000);
    let mut x: u64 = 0x243F6A8885A308D3;
    for _ in 0..50000 {
        x = x.wrapping_mul(6364136223846793005).wrapping_add(1442695040888963407);
        v.push((x >> 33) as u8);
    }
    v
}

fn sample_files() -> Vec<SourceFile> {
    vec![
        SourceFile {
            rel_path: "index.html".to_string(),
            data: html_bytes(),
            modified: Some(ModTime { after_epoch: true, secs: 1700000000 }),
        },
        SourceFile {
            rel_path: "images/flower.jpg".to_string(),
            data: jpeg_like_bytes(),
            modified: Some(ModTime { after_epoch: true, secs: 1700000000 }),
        },
        SourceFile {
            rel_path: "images/doc.txt".to_string(),
            data: b"This is a document.\n".to_vec(),
            modified: Some(ModTime { after_epoch: true, secs: 1700000000 }),
        },
    ]
}

fn build_default() -> Registry {
    let config = Config::new("examples/public".to_string());
    Registry::build(&sample_files(), &config).unwrap()
}

#[test]
fn existing_file_at_root_is_there() {
    assert!(build_default().get("index.html").is_some());
}

#[test]
fn existing_file_in_folder_is_there() {
    assert!(build_default().get("images/doc.txt").is_some());
}

#[test]
fn missing_file_is_none() {
    assert!(build_default().get("does-not-exist").is_none());
}
