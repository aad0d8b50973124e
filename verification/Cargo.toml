[package]
name = "dictionay_link_batch"
version = "0.1.0"
edition = "2021"
publish = false

[dependencies]
mssql-client = "*"
anyhow = "1"
async-trait = "*"
once_cell = "1"
serde = { version = "1", features = ["derive"] }
tokio = { version = "1", features = ["macros", "rt-multi-thread"] }
toml = "*"
dotenv = "*"
