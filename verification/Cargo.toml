[package]
name = "velomorph"
version = "0.2.1"
edition = "2021"
publish = false

[dependencies]
syn = { version = "=2.0.119", features = ["full"] }
quote = "=1.0.47"
proc-macro2 = "=1.0.107"
thiserror = "=2.0.21"
tokio = { version = "=1.54.1", features = ["sync"] }
unicode-ident = "=1.0.27"
