[package]
name = "ndi_sdk_sys"
version = "0.1.0"
edition = "2021"
publish = false

[dependencies]
num = "0.4"
static_assertions = "1.1"
