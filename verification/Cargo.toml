[package]
name = "subsonic_tui"
version = "0.1.0"
edition = "2021"
publish = false

[dependencies]
md-5 = "0.10"
rand = "0.8"
rodio = "0.19"
symphonia = "0.5"
reqwest = { version = "0.12", default-features = false, features = ["blocking"] }
serde = { version = "1", features = ["derive"] }
toml = "0.8"
dirs = "5"
urlencoding = "2"
