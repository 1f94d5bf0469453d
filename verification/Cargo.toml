[package]
name = "birocrat"
version = "0.1.0"
edition = "2021"
publish = false

[dependencies]
mlua = { version = "*", features = ["lua54", "vendored", "serialize"] }
serde_json = "*"
clap = { version = "*", features = ["derive"] }
dialoguer = "*"
fmterr = "*"
thiserror = "*"
