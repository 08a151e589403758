[package]
name = "nft_gateway"
version = "0.1.0"
edition = "2021"
publish = false

[dependencies]
axum = "0.6"
dotenvy = "0.15"
hex = "0.4"
reqwest = { version = "0.11", default-features = false, features = ["multipart", "json"] }
secp256k1 = "0.29"
serde = { version = "1", features = ["derive"] }
serde_json = "1"
sha3 = "0.10"
thiserror = "1"
tokio = { version = "1", features = ["full"] }
tower-http = { version = "0.4", features = ["cors", "fs"] }
utoipa = "*"
web3 = { version = "0.19", default-features = false, features = ["http"] }
