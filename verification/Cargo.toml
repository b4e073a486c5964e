[package]
name = "pagepool"
version = "0.1.0"
edition = "2021"
publish = false

[dependencies]
diesel = { version = "=2.2.12", default-features = false, features = ["postgres_backend"] }
diesel-async = { version = "=0.5.2", features = ["deadpool", "postgres", "async-connection-wrapper"] }
diesel_migrations = "=2.2.0"
futures-util = "=0.3.34"
rustls = { version = "=0.23.45", default-features = false, features = ["ring", "std", "tls12", "logging"] }
tokio = { version = "=1.53.2", features = ["rt"] }
tokio-postgres = "=0.7.18"
tokio-postgres-rustls = "=0.12.0"
