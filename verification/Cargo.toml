[package]
name = "athena_cli"
version = "0.1.0"
edition = "2021"
publish = false

[dependencies]
anyhow = "*"
aws-config = "*"
aws-sdk-athena = "*"
aws-sdk-s3 = "*"
byte-unit = "*"
chrono = "*"
clap = { version = "*", features = ["derive"] }
colored = "*"
directories = "*"
humantime = "*"
humantime-serde = "*"
owo-colors = "*"
prettytable-rs = "*"
serde = { version = "*", features = ["derive"] }
sqlparser = "*"
tokio = { version = "*", features = ["rt-multi-thread", "macros"] }
toml = "*"
