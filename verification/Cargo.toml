[package]
name = "pg_extism"
version = "0.1.0"
edition = "2021"
publish = false

[dependencies]
extism = "0"
extism-manifest = "0"
extism-pdk = "0"
pgx = "0.7"
serde = { version = "1", features = ["derive"] }
serde_json = "1"
