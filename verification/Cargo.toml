[package]
name = "zkbob_gate"
version = "0.1.0"
edition = "2021"
publish = false

[dependencies]
hex = "*"
serde_json = "*"
libzeropool-zkbob = "*"
serde = { version = "*", features = ["derive"] }
actix-web = "*"
tokio = { version = "*", features = ["macros", "rt-multi-thread"] }
