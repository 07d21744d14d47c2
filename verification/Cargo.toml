[package]
name = "ckb_debugger_dumper"
version = "0.1.0"
edition = "2021"
publish = false

[dependencies]
ckb-types = "*"

[dev-dependencies]
serde_json = "*"
ckb-mock-tx-types = "*"
