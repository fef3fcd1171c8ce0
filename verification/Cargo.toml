[package]
name = "ponder"
version = "0.1.0"
edition = "2021"
publish = false

[dependencies]
chrono = "0.4"
age = "0.10"
serde = { version = "1", features = ["derive"] }
serde_json = "1"
clap = { version = "4", features = ["derive"] }
reqwest = { version = "0.12", default-features = false, features = ["blocking", "json", "stream", "rustls-tls"] }
futures = "0.3"
rusqlite = { version = "*", features = ["bundled"] }
r2d2 = "0.8"
r2d2_sqlite = "*"
shellexpand = "3"
rpassword = "7"
uuid = { version = "1", features = ["v4"] }
tracing = "0.1"
tracing-subscriber = { version = "0.3", features = ["env-filter", "json", "chrono"] }
thiserror = "1"
fs2 = "0.4"
bytemuck = "1"
log = "0.4"
