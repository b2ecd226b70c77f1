[package]
name = "powerline_rs"
version = "0.1.0"
edition = "2021"
publish = false

[dependencies]
chrono = "*"
hostname = "*"
users = "*"
libc = "*"
serde = { version = "*", features = ["derive"] }
serde_json = "*"
clap = { version = "*", features = ["derive"] }
thiserror = "*"
