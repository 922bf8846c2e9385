[package]
name = "kusabira"
version = "0.1.0"
edition = "2021"
publish = false

[dependencies]
bindgen = { version = "0.68.1", default-features = false, features = ["runtime"] }
cc = "1.0"
glob = "0.3"
system-deps = "6"
