[package]
name = "ironlab_ir"
version = "0.1.0"
edition = "2021"
publish = false

[dependencies]
prost = "=0.13.5"
serde_json = "1"
