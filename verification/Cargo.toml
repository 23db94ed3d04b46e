[package]
name = "proofcortex_verifier"
version = "0.1.0"
edition = "2021"
publish = false

[dependencies]
ethers = { version = "*", default-features = false }
hex = "0.4"
serde = { version = "1", features = ["derive"] }
serde_json = "1"
sha2 = "0.10"
tokio = { version = "1", features = ["macros", "rt-multi-thread"] }
