[package]
name = "local_db"
version = "0.1.0"
edition = "2021"
publish = false

[dependencies]
anyhow = "1"
chrono = "0.4"
dirs = "*"
flate2 = "1"
nix = { version = "*", features = ["signal", "process"] }
reqwest = { version = "0.12", default-features = false, features = ["blocking"] }
serde = { version = "1", features = ["derive"] }
serde_json = "1"
sysinfo = "*"
tar = "0.4"
tauri = { version = "2", default-features = false }
zip = { version = "*", default-features = false, features = ["deflate"] }
