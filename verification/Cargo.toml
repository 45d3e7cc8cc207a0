[package]
name = "rytm_object"
version = "0.1.0"
edition = "2021"
publish = false

[dependencies]
rytm-rs = "*"
parking_lot = "0.12"
thiserror = "1"
