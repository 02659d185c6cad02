[package]
name = "packc"
version = "0.1.0"
edition = "2021"
publish = false

[dependencies]
anyhow = "1"
base64 = "0.22"
clap = { version = "4", features = ["derive"] }
ed25519-dalek = { version = "2", features = ["pkcs8", "pem"] }
hex = "0.4"
ignore = "0.4"
pkcs8 = { version = "0.10", features = ["pem"] }
schemars = "*"
serde = { version = "1", features = ["derive"] }
serde_cbor = "0.11"
serde_json = "1"
serde_yaml_bw = "*"
sha2 = "0.10"
thiserror = "*"
time = { version = "0.3", features = ["formatting", "parsing", "serde"] }
toml = "0.8"
tracing = "0.1"
tracing-subscriber = { version = "0.3", features = ["env-filter"] }
walkdir = "2"

[dev-dependencies]
ed25519-dalek = { version = "2", features = ["pkcs8", "pem", "rand_core"] }
rand = "0.8"
