[package]
name = "rtlsdr"
version = "0.1.0"
edition = "2021"
publish = false

[dependencies]
rusb = "*"
parking_lot = "*"
thiserror = "*"
log = "*"
