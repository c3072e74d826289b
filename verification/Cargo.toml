[package]
name = "codex_launchpad"
version = "0.2.3"
edition = "2021"
publish = false

[dependencies]
toml_edit = "0.22"
serde = { version = "1", features = ["derive"] }
serde_json = "1"
dirs = "*"
chrono = { version = "0.4", features = ["serde"] }
reqwest = { version = "0.12", default-features = false, features = ["blocking", "json"] }
tokio = { version = "1", features = ["rt", "rt-multi-thread", "time"] }
thiserror = "*"
tiny_http = "0.12"
image = { version = "0.25", default-features = false, features = ["png", "ico"] }
rfd = "*"
tao = "*"
wry = "*"
