[package]
name = "rexeb"
version = "0.1.0"
edition = "2021"
publish = false

[dependencies]
fuzzy-matcher = "=0.3.7"
strsim = "=0.11.1"
regex = "=1.13.1"
sha2 = "=0.11.0"
md5 = "=0.8.1"
hex = "=0.4.3"
ar = "*"
tar = "*"
flate2 = "*"
xz2 = "*"
zstd = "*"
bzip2 = "*"
tempfile = "*"
walkdir = "*"
reqwest = { version = "*", default-features = false, features = ["json"] }
tokio = { version = "*", features = ["macros", "rt-multi-thread"] }
serde = { version = "*", features = ["derive"] }
serde_json = "*"
toml = "*"
clap = { version = "*", features = ["derive"] }
dirs = "*"
chrono = "*"
thiserror = "*"
