[package]
name = "portkeeper"
version = "0.1.0"
edition = "2021"
publish = false

[dependencies]
igd = "*"
local-ip-address = "*"
once_cell = "*"
serde = { version = "1", features = ["derive"] }
tokio = { version = "1", features = ["full"] }
toml = "*"
winapi = { version = "0.3", features = ["consoleapi", "wincon", "minwindef"] }
