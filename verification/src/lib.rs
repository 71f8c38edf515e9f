//! A build-time file table for web serving: scans a directory tree, filters
//! paths with glob patterns, and maps each relative path to an immutable
//! record carrying the file's bytes, a content hash and ETag, a MIME guess,
//! last-modified data, and compressed variants (gzip, brotli, zstd) kept only
//! when compression saves enough space. A static record fixes everything at
//! build time; a dynamic record is rebuilt from a fresh read on each request
//! and never carries compressed variants.

pub mod compress;
pub mod config;
pub mod file;
pub mod filter;
pub mod metadata;
pub mod paths;
pub mod registry;
