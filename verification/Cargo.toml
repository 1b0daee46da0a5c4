[package]
name = "camera_mount"
version = "0.1.0"
edition = "2021"
publish = false

[dependencies]
actix-rt = "=2.15.0"
i2cdev = "=0.6.2"
serde_json = "=1.0.154"
webthing = "=0.15.2"
