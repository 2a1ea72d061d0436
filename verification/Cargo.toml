[package]
name = "perlmod_export"
version = "0.1.0"
edition = "2021"
publish = false

[dependencies]
anyhow = "=1.0.104"
proc-macro2 = "=1.0.107"
quote = "=1.0.47"
serde = { version = "=1.0.229", features = ["derive"] }
syn = { version = "=2.0.119", features = ["full"] }
unicode-ident = "=1.0.27"

[dev-dependencies]
proc-macro2 = { version = "=1.0.107", features = ["span-locations"] }
