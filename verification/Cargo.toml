[package]
name = "ani-dl"
version = "0.1.0"
edition = "2021"
publish = false

[dependencies]
anyhow = "1"
async-trait = "0.1"
clap = { version = "4", features = ["derive"] }
console = "*"
dirs = "*"
futures = "0.3"
indicatif = "*"
inquire = "*"
kodik-api = "*"
kodik-parser = "*"
reqwest = { version = "*", features = ["json"] }
serde = { version = "1", features = ["derive"] }
strum = { version = "*", features = ["derive"] }
thiserror = "*"
tokio = { version = "1", features = ["full"] }
toml = "*"
