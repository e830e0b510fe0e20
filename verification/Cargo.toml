[package]
name = "gcam"
version = "0.1.0"
edition = "2021"
publish = false

[dependencies]
image = { version = "*", default-features = false, features = ["jpeg"] }
crossbeam-channel = "*"
directories = "*"
serde = { version = "*", features = ["derive"] }
serde_yaml = "*"
gphoto2 = "*"
