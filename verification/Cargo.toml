[package]
name = "piv_applet"
version = "0.1.0"
edition = "2021"
publish = false

[dependencies]
tinyvec = "*"
uuid = { version = "*", features = ["v5"] }
