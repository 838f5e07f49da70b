[package]
name = "rectangle_packer"
version = "0.1.0"
edition = "2021"
publish = false

[dependencies]
imageproc = { version = "=0.25.1", default-features = false }
nannou = { version = "=0.19.0", default-features = false }
