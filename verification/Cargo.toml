[package]
name = "warcraft_recorder"
version = "1.0.10"
edition = "2021"
publish = false

[dependencies]
serde = { version = "1", features = ["derive"] }
serde_json = "1"
ureq = { version = "3", features = ["json"] }
uuid = { version = "1", features = ["v4"] }
libc = "0.2"
tracing = "0.1"
gtk4 = { version = "*", features = ["v4_12"] }
libadwaita = { version = "*", features = ["v1_6"] }
