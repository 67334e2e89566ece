[package]
name = "transportx"
version = "0.1.1"
edition = "2021"
publish = false

[dependencies]
async-trait = "0.1"
bytes = "1"
futures-util = { version = "0.3", default-features = false, features = ["sink", "std"] }
httpdate = "1"
reqwest = { version = "0.12", default-features = false, features = ["rustls-tls", "http2", "charset"] }
thiserror = "2"
tokio = { version = "1", features = ["net", "time", "rt", "rt-multi-thread", "macros", "io-util"] }
tokio-tungstenite = { version = "0.28", features = ["rustls-tls-webpki-roots"] }
