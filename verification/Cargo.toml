[package]
name = "beam"
version = "0.1.0"
edition = "2021"
publish = false

[dependencies]
ironrdp-cliprdr = "0.7"
ironrdp-connector = "0.10"
ironrdp-core = "0.2"
ironrdp-graphics = "0.9"
ironrdp-pdu = "0.9"
ironrdp-session = "0.11"
ironrdp-svc = "0.8"
ironrdp-tls = { version = "*", features = ["rustls"] }
ironrdp-tokio = "0.10"
tokio = { version = "1", features = ["macros", "net", "rt", "sync", "time"] }
tracing = "0.1"
gtk4 = "*"
libadwaita = "*"
