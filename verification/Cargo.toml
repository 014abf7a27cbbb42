[package]
name = "sealevel_tools"
version = "0.1.0"
edition = "2021"
publish = false

[dependencies]
const-crypto = "=0.3.0"
solana-program = "=2.3.0"
solana-pubkey = "=2.4.0"
solana-program-error = "=2.2.2"
solana-clock = "=2.2.3"
solana-rent = "=2.2.1"
solana-msg = "=2.2.1"
solana-program-pack = "=2.2.1"
solana-define-syscall = "=2.3.0"
spl-token-2022 = { version = "=7.0.0", features = ["no-entrypoint"] }
sealevel-nostd-entrypoint = "=0.1.1"

[dev-dependencies]
bincode = "=1.3.3"
spl-discriminator = "=0.4.1"
