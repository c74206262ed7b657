[package]
name = "pathscan"
version = "0.1.0"
edition = "2021"
publish = false

[dependencies]
anyhow = "1"
blake3 = { version = "1", default-features = false, features = ["std", "pure"] }
chrono = { version = "0.4", default-features = false, features = ["std", "clock"] }
clap = { version = "4", features = ["derive", "env"] }
dotenv = "0.15"
sqlx = { version = "0.8", default-features = false, features = ["sqlite", "chrono", "runtime-tokio"] }
tokio = { version = "1", features = ["rt-multi-thread", "macros"] }
