[package]
name = "rust_server"
version = "0.1.0"
edition = "2021"
publish = false

[dependencies]
actix-web = "*"
actix-rt = "*"
listenfd = "*"
serde = { version = "*", features = ["derive"] }
diesel = { version = "*", features = ["postgres"] }
dotenv = "*"
