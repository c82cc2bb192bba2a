[package]
name = "kumulus"
version = "0.1.0"
edition = "2021"
publish = false

[dependencies]
frame-support = { version = "*", default-features = false }
frame-system = { version = "*", default-features = false }
polkadot-sdk-frame = { version = "*", default-features = false }
scale-info = { version = "*", default-features = false, features = ["derive"] }
sp-std = { version = "*", default-features = false }
sp-runtime = { version = "*", default-features = false }
parity-scale-codec = { version = "*", default-features = false, features = ["derive", "max-encoded-len"] }
bounded-collections = { version = "*", default-features = false }
