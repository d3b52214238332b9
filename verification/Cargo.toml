[package]
name = "gltr"
version = "0.1.0"
edition = "2021"
publish = false

[dependencies]
clap = { version = "4", features = ["derive"] }
glium = "0.32"
image = "0.24"
log = "0.4"
serde_json = "1"
simple_logger = "4"
