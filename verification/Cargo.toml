[package]
name = "ledger_device_sdk"
version = "0.1.0"
edition = "2021"
publish = false

[dependencies]
ledger_secure_sdk_sys = "=1.6.7"
include_gif = "=1.3.2"
const-zero = "=0.1.1"
