[package]
name = "kvg"
version = "0.1.0"
edition = "2021"
publish = false

[dependencies]
calamine = "=0.37.0"
iced = { version = "=0.14.0", default-features = false, features = ["x11", "tiny-skia", "thread-pool"] }
rfd = { version = "=0.17.2", default-features = false, features = ["xdg-portal"] }
