[package]
name = "pg_range"
version = "0.1.0"
edition = "2021"
publish = false

[dependencies]
sqlx = { version = "0.8", default-features = false, features = ["postgres", "chrono", "time", "bigdecimal", "rust_decimal"] }
serde = { version = "1", features = ["derive"] }
chrono = { version = "0.4", default-features = false, features = ["std"] }
time = "0.3"
bigdecimal = "0.4"
rust_decimal = "1"
