[package]
name = "weavelit-server"
version = "0.1.0"
edition = "2021"
publish = false

[dependencies]
axum = { version = "0.8", default-features = false }
base64 = "0.22"
getrandom = "0.3"
httparse = "1"
rustix = { version = "1", features = ["fs"] }
rustls = { version = "0.23", default-features = false, features = ["std"] }
sha2 = "0.10"
zeroize = "1"
