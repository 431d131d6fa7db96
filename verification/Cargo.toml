[package]
name = "gfxmath"
version = "0.1.0"
edition = "2021"
publish = false

[dependencies]
auto_ops = "*"
paste = "*"
serde = { version = "*", features = ["derive"] }
