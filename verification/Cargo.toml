[package]
name = "mini-chat-llm"
version = "0.1.0"
edition = "2021"
publish = false

[dependencies]
serde_json = "1"
http = "1"
serde = { version = "1", features = ["derive"] }
async-trait = "0.1"
bytes = "1"
futures = "0.3"
tokio-util = "0.7"
tracing = "0.1"
uuid = "1"
time = "0.3"
sea-orm = { version = "1.1", default-features = false, features = ["macros", "with-uuid", "with-time"] }
sea-orm-migration = { version = "1.1", default-features = false }
