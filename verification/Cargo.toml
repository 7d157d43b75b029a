[package]
name = "templatex"
version = "0.1.0"
edition = "2021"
publish = false

[dependencies]
tera = "=1.20.1"
toml = "=1.1.6"
glob = "=0.3.4"
clap = { version = "=4.6.7", features = ["derive"] }
inquire = "=0.9.4"
directories = "=6.0.0"
serde = { version = "=1.0.229", features = ["derive"] }
