[package]
name = "hd_wallet"
version = "0.1.0"
edition = "2021"
publish = false

[dependencies]
sha2 = "=0.10.9"
sha3 = "=0.10.9"
bip39 = "=2.2.2"
bitcoin = "=0.29.2"
secp256k1 = "=0.24.3"
ethereum-types = "=0.16.0"
serde = { version = "1", features = ["derive"] }
serde_json = "1"
actix-web = "4"
actix-cors = "0.7"
web3 = { version = "0.19", default-features = false, features = ["http", "signing"] }
dotenv = "0.15"
env_logger = "0.11"
