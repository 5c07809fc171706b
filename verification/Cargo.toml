[package]
name = "blog"
version = "0.1.0"
edition = "2021"
publish = false

[dependencies]
anyhow = "=1.0.104"
boluo = "=0.7.0"
comrak = "=0.59.0"
config = "=0.15.27"
humantime-serde = "=1.1.1"
jiff = "=0.2.39"
serde = { version = "=1.0.229", features = ["derive"] }
sqlx = { version = "=0.9.0", default-features = false, features = ["sqlite", "runtime-tokio", "macros"] }
syntect = "=5.3.0"
tera = "=1.20.1"
tokio = { version = "=1.54.1", features = ["rt", "macros"] }
tracing = "=0.1.44"
urlencoding = "=2.1.3"
walkdir = "=2.5.0"
