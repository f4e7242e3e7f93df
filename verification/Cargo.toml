[package]
name = "ibc_tendermint"
version = "0.1.0"
edition = "2021"
publish = false

[dependencies]
tendermint = { version = "0.28", default-features = false }
tendermint-proto = { version = "0.28", default-features = false }
tendermint-light-client-verifier = { version = "0.28", default-features = false }
ibc-proto = { version = "0.24", default-features = false, features = ["std"] }
ics23 = { version = "0.9", default-features = false, features = ["std", "host-functions"] }
prost = { version = "0.11", default-features = false }
bytes = { version = "1", default-features = false }
serde = { version = "1", features = ["derive"] }
subtle-encoding = { version = "0.5", default-features = false }
dyn-clone = "1"
borsh = { version = "0.9", default-features = false }
parity-scale-codec = { version = "3", default-features = false, features = ["derive"] }
scale-info = { version = "2", default-features = false, features = ["derive"] }

[dev-dependencies]
tendermint-testgen = { version = "0.28", default-features = false }
