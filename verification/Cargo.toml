[package]
name = "lemmy_core"
version = "0.1.0"
edition = "2021"
publish = false

[dependencies]
tracing-error = "0.2"
anyhow = "1"
actix-web = { version = "4", default-features = false }
diesel = { version = "2", default-features = false }
