[package]
name = "work_sleep"
version = "0.1.0"
edition = "2021"
publish = false

[dependencies]
chrono = "0.4"
uuid = { version = "1", features = ["v4"] }
seed = "0.10"
web-sys = { version = "0.3", features = ["HtmlInputElement"] }
