[package]
name = "graphql_proxy"
version = "0.1.0"
edition = "2021"
publish = false

[dependencies]
serde_json = "*"
async-graphql-parser = "*"
uuid = { version = "*", features = ["v4"] }
axum = { version = "*", features = ["ws"] }
tokio = { version = "*", features = ["rt-multi-thread", "macros", "net"] }
reqwest = { version = "*", default-features = false, features = ["json"] }
tokio-tungstenite = "*"
futures-util = "*"
