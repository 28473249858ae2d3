[package]
name = "c2pa_c"
version = "0.1.0"
edition = "2021"
publish = false

[dependencies]
c2pa = { version = "=0.90.22", default-features = false, features = ["rust_native_crypto"] }
pem = "=4.0.0"
