[package]
name = "postgres_source"
version = "0.1.0"
edition = "2021"
publish = false

[dependencies]
hex = "0.4"
serde_json = "1"
rust_decimal = { version = "1", features = ["db-postgres"] }
chrono = "0.4"
uuid = "1"
sqlparser = "*"
postgres = { version = "0.19", features = ["with-chrono-0_4", "with-uuid-1", "with-serde_json-1"] }
csv = "1"
r2d2 = "0.8"
r2d2_postgres = "0.18"
