[package]
name = "ricksponse"
version = "0.1.0"
edition = "2021"
publish = false

[dependencies]
actix-http = "3"
actix-web = "4"
bytes = "1"
futures-core = "0.3"
http = "0.2"
serde = { version = "1", features = ["derive"] }
serde_json = "1"
simple_serde = "*"
uuid = "1"

[dev-dependencies]
