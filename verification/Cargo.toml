[package]
name = "joujou"
version = "0.1.0"
edition = "2021"
publish = false

[dependencies]
anyhow = "*"
axum = "*"
axum-extra = { version = "*", features = ["typed-header"] }
axum-range = "*"
env_logger = "*"
log = "*"
mdns-sd = "*"
mpris-server = "=0.10.0"
natord = "=1.0.9"
rusqlite = { version = "*", features = ["bundled"] }
rust_cast = { version = "=0.21.0", features = ["thread_safe"] }
symphonia = { version = "=0.6.1", features = ["flac", "isomp4", "mkv", "mp3", "ogg", "vorbis"] }
symphonia-metadata = "=0.6.1"
tokio = { version = "*", features = ["macros", "rt-multi-thread", "net", "sync", "io-util", "fs"] }
url = "*"
uuid = { version = "*", features = ["v4", "serde"] }
walkdir = "*"
