[package]
name = "umst_ucrs"
version = "1.0.0"
edition = "2021"
publish = false

[dependencies]
sha3 = "*"
pqcrypto-kyber = "*"
pqcrypto-dilithium = "*"
pqcrypto-sphincsplus = "*"
pqcrypto-traits = "*"
serde = { version = "1", features = ["derive"] }
serde_json = "1"
thiserror = "*"
clap = { version = "4", features = ["derive"] }
tokio = { version = "1", features = ["rt-multi-thread", "macros", "time"] }
tracing = "*"
tracing-subscriber = "*"
prometheus = "*"
