[package]
name = "sql_assembler"
version = "0.1.0"
edition = "2021"
publish = false

[dependencies]
sqlx = { version = "*", default-features = false, features = ["postgres", "json", "chrono", "runtime-tokio"] }
serde_json = "1"
chrono = "0.4"
serde = { version = "1", features = ["derive"] }
