[package]
name = "surfman_angle"
version = "0.1.0"
edition = "2021"
publish = false

[dependencies]
gl = "0.14"
winapi = { version = "0.3", features = ["d3d11", "d3dcommon", "unknwnbase"] }
wio = "0.2"
