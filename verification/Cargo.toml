[package]
name = "opcua_subscriber"
version = "0.1.0"
edition = "2021"
publish = false

[dependencies]
async-opcua = { version = "=0.14.0", features = ["client"] }
tokio = { version = "=1.54.1", features = ["macros", "rt-multi-thread"] }
