[package]
name = "icon_cache"
version = "0.1.0"
edition = "2021"
publish = false

[dependencies]
sled = "*"
image = "*"
serde = { version = "*", features = ["derive"] }
serde_json = "*"
remove_dir_all = "*"

[dev-dependencies]
tempfile = "*"
