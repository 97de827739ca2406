[package]
name = "vlcb_defs"
version = "0.1.0"
edition = "2021"
publish = false

[dependencies]
anyhow = "1"
prettyplease = "0.2"
syn = { version = "2", default-features = false, features = ["full", "parsing"] }
