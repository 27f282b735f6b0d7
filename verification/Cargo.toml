[package]
name = "silkroad_core"
version = "0.1.0"
edition = "2021"
publish = false

[dependencies]
bcrypt = "*"
rand = "0.8"
chrono = "0.4"
