[package]
name = "buttons"
version = "0.6.0"
edition = "2021"
publish = false

[dependencies]
smallvec = "1"
smol_str = "0.3"
winit = { version = "0.30", default-features = false, features = ["x11", "rwh_06"] }
