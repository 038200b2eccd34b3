[package]
name = "asset_tip_flow"
version = "0.1.0"
edition = "2021"
publish = false

[dependencies]
subxt-signer = { version = "*", default-features = false, features = ["sr25519"] }
tokio = { version = "*", features = ["rt-multi-thread", "macros", "time"] }

[dev-dependencies]
parity-scale-codec = "*"
