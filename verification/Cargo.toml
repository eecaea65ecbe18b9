[package]
name = "base_search"
version = "2.2.0"
edition = "2021"
publish = false

[dependencies]
calamine = { version = "=0.38.0", features = ["chrono"] }
chrono = "=0.4.45"
csv = "=1.4.0"
duckdb = { version = "=1.20000.1", default-features = false }
eframe = { version = "=0.37.0", default-features = false, features = ["glow", "default_fonts", "x11"] }
egui = { version = "=0.37.0", default-features = false }
rfd = { version = "=0.17.2", default-features = false, features = ["xdg-portal"] }
rusqlite = { version = "=0.41.1", features = ["bundled"] }
rust_xlsxwriter = { version = "=0.102.0", features = ["constant_memory"] }
serde = { version = "=1.0.229", features = ["derive"] }
serde_json = "=1.0.154"
sha2 = "=0.11.1"
xxhash-rust = { version = "=0.8.19", features = ["xxh3"] }
