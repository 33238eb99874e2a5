[package]
name = "flutter_installer"
version = "0.1.0"
edition = "2021"
publish = false

[dependencies]
directories = "=6.0.0"
git2 = { version = "=0.21.0", features = ["https"] }
spinners = "=3.1.0"
