[package]
name = "widgetkit"
version = "0.2.1"
edition = "2021"
publish = false

[dependencies]
font8x8 = "*"
crossbeam-channel = "*"
futures = "*"
tokio = { version = "*", features = ["rt-multi-thread"] }
winit = "*"
softbuffer = "*"
