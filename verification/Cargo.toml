[package]
name = "rust_multiplatform"
version = "0.1.0"
edition = "2021"
publish = false

[dependencies]
crossbeam = "=0.8.5"
log = "=0.4.34"
once_cell = "=1.21.4"
rusqlite = { version = "=0.41.0", features = ["bundled"] }
sqlite-watcher = { version = "=0.7.0", features = ["rusqlite"] }
