[package]
name = "watchtower"
version = "0.1.0"
edition = "2021"
publish = false

[dependencies]
clap = "2.33"
log = "0.4"
solana-clap-utils = "~1.1"
solana-cli-config = "~1.1"
solana-client = "~1.1"
solana-logger = "~1.1"
solana-metrics = "~1.1"
solana-sdk = "~1.1"
