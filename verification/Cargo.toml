[package]
name = "escrow-program"
version = "0.1.0"
edition = "2021"
publish = false

[dependencies]
anchor-lang = { version = "=0.31.2", features = ["init-if-needed"] }
anchor-spl = "=0.31.2"
borsh = "=1.8.1"
chrono = { version = "=0.4.45", default-features = false, features = ["std"] }
solana-account-info = "=2.3.0"
solana-instruction = "=2.3.3"
solana-program = "=2.3.0"
solana-program-entrypoint = "=2.3.0"
solana-program-error = "=2.2.2"
solana-program-pack = "=2.2.1"
solana-pubkey = { version = "=2.4.0", features = ["curve25519"] }
spl-token = "=7.0.0"
thiserror = "=1.0.69"
