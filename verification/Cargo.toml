[package]
name = "ci_worker"
version = "0.1.0"
edition = "2021"
publish = false

[dependencies]
actix-web = { version = "4", default-features = false, features = ["macros"] }
colored = "2"
serde = { version = "1", features = ["derive"] }
uuid = { version = "1", features = ["v4"] }
