[package]
name = "localsend"
version = "0.1.0"
edition = "2021"
publish = false

[dependencies]
julid-rs = { version = "*", default-features = false }
sha256 = "1"
mime_guess = "2"
chrono = "0.4"
uuid = { version = "1", features = ["v4"] }
serde = { version = "1", features = ["derive"] }
serde_json = "1"
tokio = { version = "1", features = ["full"] }
axum = "0.8"
axum-server = { version = "0.7", features = ["tls-rustls"] }
tokio-rustls = "0.26"
reqwest = { version = "0.12", default-features = false, features = ["json", "rustls-tls"] }
tower-http = { version = "0.6", features = ["limit"] }
log = "0.4"
thiserror = "2"
directories = "6"
figment = { version = "0.10", features = ["toml"] }
toml = "0.8"
rcgen = "0.14"
local-ip-address = "0.6"
rustix = { version = "1", features = ["system"] }
network-interface = "2"
