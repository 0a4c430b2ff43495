[package]
name = "oacounter"
version = "0.1.0"
edition = "2021"
publish = false

[dependencies]
openaction = "*"
serde = { version = "*", features = ["derive"] }
simplelog = "*"
tokio = { version = "*", features = ["macros", "rt-multi-thread"] }
