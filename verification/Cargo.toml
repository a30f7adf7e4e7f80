[package]
name = "heliocron"
version = "0.1.0"
edition = "2021"
publish = false

[dependencies]
chrono = "0.4"
dirs = "2.0"
serde = { version = "1.0", features = ["derive"] }
structopt = "0.3"
toml = "0.5"
