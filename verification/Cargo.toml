[package]
name = "steel_examples"
version = "0.1.0"
edition = "2021"
publish = false

[dependencies]
steel = { version = "=1.3.0", features = ["spl"] }
solana-program = "=1.18.26"
spl-token = { version = "=4.0.3", features = ["no-entrypoint"] }
spl-associated-token-account = { version = "=2.3.0", features = ["no-entrypoint"] }
mpl-token-metadata = "=4.1.2"
bytemuck = { version = "=1.25.2", features = ["derive"] }
num_enum = "=0.7.6"
