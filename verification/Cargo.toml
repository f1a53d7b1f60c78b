[package]
name = "rseed"
version = "0.1.0"
edition = "2021"
publish = false

[dependencies]
ash = "0.32"
gl = "0.14"
glutin = "0.29"
raw-window-handle = "0.5"
serde = { version = "1", features = ["derive"] }
toml = "*"
