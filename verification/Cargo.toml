[package]
name = "uuid-mc"
version = "0.3.0"
edition = "2021"
publish = false

[dependencies]
md5 = "0.7"
serde = { version = "1", features = ["derive"] }
thiserror = "1"
ureq = { version = "2", features = ["json"] }
uuid = { version = "1", features = ["serde"] }
