[package]
name = "remote_wheel"
version = "0.1.0"
edition = "2021"
publish = false

[dependencies]
glam = "*"
rosc = "*"
anyhow = "1"
log = "0.4"
smol = "*"
async-broadcast = "*"
futures = "0.3"
hashbrown = "*"
string_cache = "*"
linear-map = { version = "*", features = ["serde_impl"] }
serde = { version = "1", features = ["derive"] }
toml = "*"
