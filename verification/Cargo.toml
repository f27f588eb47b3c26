[package]
name = "tax_rewards"
version = "0.1.0"
edition = "2021"
publish = false

[dependencies]
anyhow = "1"
borsh = { version = "1", features = ["derive"] }
chrono = "0.4"
dotenv = "0.15"
fern = "0.7"
log = "0.4"
serde = { version = "1", features = ["derive"] }
serde_json = "1"
solana-sdk = "2"
spl-associated-token-account = "6"
spl-token = "7"
tokio = { version = "1", features = ["rt-multi-thread", "macros", "time"] }
