[package]
name = "dxf"
version = "0.1.0"
edition = "2021"
publish = false

[dependencies]
enum_primitive = "0.1.1"
serde = { version = "1.0", features = ["derive"] }
