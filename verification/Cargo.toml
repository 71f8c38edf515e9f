[package]
name = "embed_registry"
version = "0.1.0"
edition = "2021"
publish = false

[dependencies]
base85rs = "*"
brotli = "*"
chrono = "*"
flate2 = "*"
globset = "*"
new_mime_guess = "*"
sha2 = "*"
walkdir = "*"
zstd = "*"
