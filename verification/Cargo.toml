[package]
name = "desktop_app"
version = "0.1.0"
edition = "2021"
publish = false

[dependencies]
anyhow = "*"
chrono = "=0.4.45"
dirs = "=7.0.0"
env_logger = "*"
fastrand = "=2.5.0"
rust_xlsxwriter = "=0.99.1"
self_update = { version = "=1.3.0", default-features = false, features = ["ureq", "rustls", "github", "archive-tar", "compression-tar-gz", "progress-bar"] }
serde = { version = "*", features = ["derive"] }
tokio = { version = "*", features = ["rt-multi-thread", "macros", "time"] }

[dev-dependencies]
calamine = "=0.36.1"
