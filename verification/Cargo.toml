[package]
name = "deepchat_desktop"
version = "1.0.0"
edition = "2021"
publish = false

[dependencies]
aes-gcm = "0.10"
open = "5"
rand = "0.8"
serde = { version = "1", features = ["derive"] }
serde_json = "1"
url = "2"

[lints.rust]
unexpected_cfgs = "allow"
