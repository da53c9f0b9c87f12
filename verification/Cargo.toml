[package]
name = "tidb_bench"
version = "0.1.0"
edition = "2021"
publish = false

[dependencies]
anyhow = "*"
async-trait = "*"
clap = { version = "*", features = ["derive"] }
mysql_async = { version = "*", default-features = false, features = ["minimal"] }
rlt = "*"
tokio = { version = "*", features = ["rt-multi-thread", "macros", "time"] }
