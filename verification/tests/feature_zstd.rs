use embed_registry::config::Config;
use embed_registry::file::{DynamicFile, EmbedableFile};
use embed_registry::metadata::ModTime;
use embed_registry::registry::{Registry, SourceFile};

fn html_bytes() -> Vec<u8> {
    let mut s = String::from("<!DOCTYPE html>\n<html><head><title>sample</title></head><body>\n");
    while s.len() < 1900 {
        s.push_str("<p>lorem ipsum dolor sit amet, consectetur adipiscing elit</p>\n");
    }
    s.push_str("</body></html>\n");
    s.into_bytes()
}

fn mtime() -> Option<ModTime> {
    Some(ModTime { after_epoch: true, secs: 1700000000 })
}

fn sample_files() -> Vec<SourceFile> {
    vec![SourceFile {
        rel_path: "index.html".to_string(),
        data: html_bytes(),
        modified: mtime(),
    }]
}

#[test]
fn zstd_feature_behavior() {
    // A build without the zstd encoder reports the variant as absent.
    let mut config = Config::new("examples/public".to_string());
    config.zstd_supported = false;
    let registry = Registry::build(&sample_files(), &config).unwrap();
    let file = registry.get("index.html").unwrap();
    assert!(file.data_zstd().is_none());
}

#[test]
fn zstd_default_trait_implementation() {
    let file = DynamicFile::from_content("examples/public/index.html", html_bytes(), mtime());

    // For a dynamic file, data_zstd is always absent, whatever the build.
    assert!(file.data_zstd().is_none());
}
