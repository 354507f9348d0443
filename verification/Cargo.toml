[package]
name = "bluer"
version = "0.1.0"
edition = "2021"
publish = false

[dependencies]
hex = "0.4"
uuid = "1"
zbus = { version = "4", default-features = false, features = ["tokio"] }
