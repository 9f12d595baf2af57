[package]
name = "staking"
version = "0.1.0"
edition = "2021"
publish = false

[dependencies]
solana-program = "=1.16.25"
anchor-lang = "=0.29.0"
anchor-spl = "=0.29.0"
mpl-token-metadata = { version = "=1.13.2", features = ["no-entrypoint"] }
open_creator_protocol = { version = "=0.4.1", features = ["cpi"] }
# No code names the two crates below. They are held to the releases that
# build on solana-program 1.16: a later one brings in solana-program 2, and
# with two versions of it the crates above do not build.
spl-token = "=4.0.0"
spl-memo = "=4.0.0"
