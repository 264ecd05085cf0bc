[package]
name = "all_new_db_talks"
version = "0.1.0"
edition = "2021"
publish = false

[dependencies]
anyhow = "=1.0.104"
async-trait = "=0.1.92"
datafusion = { version = "*", default-features = false }
dotenv = "=0.15.0"
mysql = { version = "=28.0.4", default-features = false, features = ["minimal-rust"] }
ollama-rs = { version = "=0.3.6", default-features = false }
serde = { version = "=1.0.229", features = ["derive"] }
sqlx = { version = "*", default-features = false, features = ["mysql", "runtime-tokio"] }
tokio = { version = "=1.54.1", features = ["rt-multi-thread", "macros"] }
