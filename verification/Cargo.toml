[package]
name = "agsol-gold-contract"
version = "0.1.0"
edition = "2021"
publish = false

[dependencies]
agsol-borsh-schema = "=0.0.2"
agsol-common = "=0.2.2"
agsol-wasm-client = "=0.0.1-alpha.5"
borsh = "=0.9.3"
metaplex-token-metadata = { version = "=0.0.1", features = ["no-entrypoint"] }
serde = { version = "=1.0.229", features = ["derive"] }
solana-program = "=1.14.29"
spl-token = { version = "=3.5.0", features = ["no-entrypoint"] }
wasm-bindgen = { version = "=0.2.129", features = ["serde-serialize"] }
wasm-bindgen-futures = "=0.4.79"
