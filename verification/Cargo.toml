[package]
name = "minter"
version = "0.1.0"
edition = "2021"
publish = false

[dependencies]
cosmwasm-std = "=1.5.11"
cw2 = "=0.13.4"
cw721-base = { version = "=0.13.4", features = ["library"] }
cw-utils = "=0.13.4"
cw-storage-plus = "=0.13.4"
rand_core = "=0.6.4"
rand_xoshiro = "=0.6.0"
sha2 = "=0.10.9"
shuffle = "=0.1.7"
url = "=2.5.8"
serde = { version = "=1.0.229", features = ["derive"] }
schemars = "=0.8.22"
thiserror = "=1.0.69"
