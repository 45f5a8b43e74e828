[package]
name = "mccl_node"
version = "0.1.0"
edition = "2021"
publish = false

[dependencies]
colored = "*"
nanoid = "0.4"
serde = { version = "1", features = ["derive"] }
serde_json = "1"
tokio = { version = "1", features = ["full"] }
reqwest = { version = "0.12", default-features = false, features = ["json", "rustls-tls"] }
iroh-base = "=0.35.0"
inquire = "*"
indicatif = "*"
actix-web = "4"
