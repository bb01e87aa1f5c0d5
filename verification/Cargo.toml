[package]
name = "hints"
version = "0.1.0"
edition = "2021"
publish = false

[dependencies]
image = "0.24"
imgui = "*"
glfw = "*"
xplm = "*"
xplm-sys = "*"
toml = "0.8"
serde = { version = "1", features = ["derive"] }
thiserror = "1"
tracing = "0.1"
tracing-subscriber = { version = "0.3", features = ["env-filter"] }
