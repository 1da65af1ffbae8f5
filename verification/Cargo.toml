[package]
name = "motion_detection_camera"
version = "0.1.0"
edition = "2021"
publish = false

[dependencies]
chrono = "*"
env_logger = "*"
opencv = "*"
uuid = { version = "*", features = ["v4"] }
