[package]
name = "leo_core"
version = "0.1.0"
edition = "2021"
publish = false

[dependencies]
anyhow = "1"
clap = "2.33"
indexmap = "1.6"
serde = { version = "1", features = ["derive"] }
serde_json = "1"
snarkvm-curves = "0.2.2"
snarkvm-fields = "0.2.2"
snarkvm-gadgets = "0.2.2"
snarkvm-r1cs = "0.2.2"
snarkvm-utilities = "0.2.2"
structopt = "0.3"
tracing = "0.1"

[dev-dependencies]
num-bigint = "0.4"
rand = "0.8"
rand_xorshift = "0.3"
