[package]
name = "confidential_token"
version = "0.1.0"
edition = "2021"
publish = false

[dependencies]
anyhow = "1"
dirs = "*"
serde_json = "1"
solana-sdk = "=2.1.21"
spl-associated-token-account = { version = "=6.0.0", features = ["no-entrypoint"] }
spl-token-2022 = { version = "=7.0.0", features = ["no-entrypoint"] }
spl-token-confidential-transfer-proof-extraction = "=0.2.1"
spl-token-confidential-transfer-proof-generation = "=0.3.0"
tokio = { version = "1", features = ["macros", "rt-multi-thread"] }
