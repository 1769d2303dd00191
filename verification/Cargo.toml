[package]
name = "stringprep_rust"
version = "0.1.0"
edition = "2021"
publish = false

[dependencies]
lru = { version = "*", default-features = false }
stringprep = "*"
unicode-normalization = "*"
rustler = "*"
