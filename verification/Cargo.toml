[package]
name = "gbindgen"
version = "0.1.0"
edition = "2021"
publish = false

[dependencies]
heck = "0.3"
syn = { version = "1.0", features = ["full"] }
clap = "2"
log = "0.4"
