[package]
name = "live_server"
version = "0.1.0"
edition = "2021"
publish = false

[dependencies]
html_editor = "*"
mime_guess = "2"
tide = "0.16"
tide-websockets = "*"
async-std = { version = "1", features = ["attributes"] }
tokio = { version = "1", features = ["full"] }
local-ip-address = "*"
uuid = { version = "1", features = ["v4"] }
colored = "*"
once_cell = "*"
