[package]
name = "server_control"
version = "0.1.0"
edition = "2021"
publish = false

[dependencies]
serde = { version = "*", features = ["derive"] }
serde_json = "*"
openssl = "*"
actix-web = { version = "*", features = ["openssl"] }
actix-rt = "*"
tera = "*"
dialoguer = "*"
