[package]
name = "tokio_inotify"
version = "0.2.1"
edition = "2021"
publish = false

[dependencies]
inotify = "0.3"
futures = "0.1"
tokio = { version = "*", features = ["macros", "net", "rt", "rt-multi-thread", "time"] }
