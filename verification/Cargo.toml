[package]
name = "nx_cache"
version = "0.1.0"
edition = "2021"
publish = false

[dependencies]
rusqlite = { version = "*", features = ["bundled"] }
fs_extra = "*"
glob = "*"
anyhow = "*"
