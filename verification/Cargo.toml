[package]
name = "green_site_backend"
version = "0.1.0"
edition = "2021"
publish = false

[dependencies]
suppaftp = { version = "*", features = ["native-tls"] }
rand = "*"
actix-web = "*"
actix-multipart = "*"
futures = "*"
serde = { version = "*", features = ["derive"] }
