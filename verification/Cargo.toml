[package]
name = "robot_core"
version = "0.1.0"
edition = "2021"
publish = false

[dependencies]
tokio = { version = "=1.53.2", features = ["sync", "macros", "rt-multi-thread"] }
async-trait = "=0.1.92"
