[package]
name = "face_servo"
version = "0.1.0"
edition = "2021"
publish = false

[dependencies]
image = "=0.25.10"
rustface = "=0.1.7"
tello = { version = "=0.6.3", features = ["tokio_async"] }
tokio = { version = "=1.53.2", features = ["macros", "rt-multi-thread"] }
