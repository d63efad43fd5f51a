[package]
name = "pastebin"
version = "0.1.0"
edition = "2021"
publish = false

[dependencies]
uuid = { version = "*", features = ["v4"] }
rocket = "*"
rocket_db_pools = { version = "*", features = ["sqlx_sqlite"] }
