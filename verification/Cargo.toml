[package]
name = "sol_vault_transfer"
version = "0.1.0"
edition = "2021"
publish = false

[dependencies]
anchor-lang = "=0.24.2"
anchor-spl = "=0.24.2"
zo-abi = { version = "=0.5.0", features = ["cpi", "devnet"] }
