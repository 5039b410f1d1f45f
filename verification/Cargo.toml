[package]
name = "hero_registry"
version = "0.1.0"
edition = "2021"
publish = false

[dependencies]
solana-program = "=1.14.29"
spl-token = "=3.5.0"
spl-token-metadata = "=0.0.1"

[dev-dependencies]
borsh = "=0.9.3"
