[package]
name = "dweeb"
version = "0.1.0"
edition = "2021"
publish = false

[dependencies]
dirs = "*"
gtk4 = "*"
gtk4-layer-shell = "*"
serde = { version = "*", features = ["derive"] }
tokio = { version = "*", features = ["rt", "sync", "net", "macros"] }
toml = "*"
wayland-client = "*"
wayland-protocols-misc = { version = "*", features = ["client"] }
