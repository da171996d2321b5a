[package]
name = "swap_tester"
version = "0.1.0"
edition = "2021"
publish = false

[dependencies]
mollusk-svm = "=0.7.2"
mollusk-svm-programs-token = "=0.7.2"
serde = { version = "1", features = ["derive"] }
serde_json = "1"
sha2 = "=0.10.9"
solana-account = "3"
solana-instruction = "3"
solana-program-option = "=3.1.0"
solana-program-pack = "=3.1.0"
solana-pubkey = { version = "=4.4.0", features = ["curve25519"] }
solana-rent = "=4.5.0"
spl-token-interface = "=2.0.0"

[dev-dependencies]
spl-associated-token-account-interface = "=2.0.0"
