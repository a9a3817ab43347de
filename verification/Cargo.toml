[package]
name = "fortunata"
version = "0.1.0"
edition = "2021"
publish = false

[dependencies]
md-5 = "0.10"
path_abs = "0.5"
roxmltree = "0.14"
serde = { version = "1", features = ["derive"] }
sha1 = "0.10"
sha2 = "0.10"
toml = "0.5"
ureq = "1"
