[package]
name = "trojan_rust"
version = "0.7.1"
edition = "2021"
publish = false

[dependencies]
async-trait = "0.1"
byteorder = "1"
bytes = "1"
clap = "3"
constant_time_eq = "0.2"
env_logger = "0.9"
futures = "0.3"
lazy_static = "1"
log = "0.4"
once_cell = "1"
prost = "0.11"
quinn = { version = "0.9", default-features = false, features = ["tls-rustls", "runtime-tokio"] }
rustls = { version = "0.20", features = ["dangerous_configuration"] }
rustls-pemfile = "1"
serde = { version = "1", features = ["derive"] }
serde_json = "1"
sha2 = "0.10"
tokio = { version = "1", features = ["full"] }
tokio-rustls = "0.23"
tokio-stream = "0.1"
tokio-util = { version = "0.7", features = ["codec"] }
tonic = { version = "0.8", features = ["tls"] }
webpki-roots = "0.22"
