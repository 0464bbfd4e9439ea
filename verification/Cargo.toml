[package]
name = "malachite_node"
version = "0.1.0"
edition = "2021"
publish = false

[dependencies]
rand = "0.8"
itertools = "0.13"
directories = "5"
clap = { version = "4", features = ["derive"] }
serde = { version = "1", features = ["derive"] }
serde_json = "1"
toml = "0.8"
color-eyre = "0.6"
eyre = "0.6"
tracing = "0.1"
tikv-jemallocator = "0.6"

[dev-dependencies]
tempfile = "3"
