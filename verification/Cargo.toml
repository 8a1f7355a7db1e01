[package]
name = "sfss"
version = "0.1.0"
edition = "2021"
publish = false

[dependencies]
flate2 = "=1.1.10"
xxhash-rust = { version = "*", features = ["xxh3"] }
base-62 = "=0.1.1"
passwords = "=3.1.18"
serde = { version = "*", features = ["derive"] }
serde_json = "*"
handlebars = "*"
dotenv = "*"
multipart = { version = "*", default-features = false, features = ["server"] }
lazy_static = "*"
