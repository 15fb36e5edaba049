[package]
name = "rc-zip"
version = "0.1.0"
edition = "2021"
publish = false

[dependencies]
chrono = { version = "=0.4.45", default-features = false, features = ["std"] }
encoding_rs = "=0.8.44"
oem_cp = "=2.1.2"
chardetng = "=0.1.17"
oval = "=2.0.0"
crc32fast = "=1.5.4"
miniz_oxide = "=0.8.9"
deflate64 = "=0.1.12"
bzip2 = "=0.5.2"
lzma-rs = { version = "=0.3.0", features = ["stream"] }
zstd = "=0.13.4"
positioned-io = "=0.3.5"
