[package]
name = "blockbuster"
version = "0.1.0"
edition = "2021"
publish = false

[dependencies]
borsh = "=0.10.4"
mpl-bubblegum = "=2.1.1"
mpl-candy-machine-core = { version = "=2.0.1", features = ["no-entrypoint"] }
spl-account-compression = "=1.0.0"
spl-noop = "=1.0.0"
spl-associated-token-account = { version = ">=1.1.3, <2.0", features = ["no-entrypoint"] }
spl-token = { version = ">=3.5.0, <4.0", features = ["no-entrypoint"] }
