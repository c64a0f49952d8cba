[package]
name = "bar_widgets"
version = "0.1.0"
edition = "2021"
publish = false

[dependencies]
glib = "0.17"
gtk = "0.17"
tokio = { version = "1", features = ["io-util", "process", "rt", "time"] }
