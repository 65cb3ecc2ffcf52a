[package]
name = "message_backup"
version = "0.1.0"
edition = "2021"
publish = false

[dependencies]
serde = { version = "1", features = ["derive"] }
displaydoc = "0.2"
thiserror = "1"
