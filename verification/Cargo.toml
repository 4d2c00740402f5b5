[package]
name = "luma11y"
version = "0.1.0"
edition = "2021"
publish = false

[dependencies]
palette = "=0.7.7"
serde = { version = "=1.0.229", features = ["derive"] }
objc2 = "=0.6.5"
objc2-foundation = "=0.3.2"
objc2-app-kit = "=0.3.2"
core-graphics = "=0.24.0"
