[package]
name = "se_tls"
version = "0.1.0"
edition = "2021"
publish = false

[dependencies]
pem = "=3.0.6"
rcgen = { version = "=0.14.10", default-features = false, features = ["crypto", "pem", "ring", "x509-parser"] }
x509-parser = { version = "=0.18.1", features = ["verify"] }
time = "=0.3.55"
rustls = { version = "=0.23.45", default-features = false, features = ["ring", "std", "logging", "tls12"] }
rustls-pki-types = "=1.15.1"
tokio = { version = "=1.53.2", features = ["rt", "rt-multi-thread", "macros", "net", "io-util", "time"] }
tokio-rustls = { version = "=0.26.6", default-features = false, features = ["ring", "logging", "tls12"] }
reqwest = { version = "=0.12.28", default-features = false }
axum = "=0.8.9"
