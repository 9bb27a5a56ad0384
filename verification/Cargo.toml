[package]
name = "teaching_tools"
version = "0.1.0"
edition = "2021"
publish = false

[dependencies]
futures = "0.3"
iced = { version = "0.4", features = ["tokio"] }
r2r = "0.6"
tokio = { version = "1", features = ["rt"] }
