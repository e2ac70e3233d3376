[package]
name = "mcp_supervisor"
version = "0.1.0"
edition = "2021"
publish = false

[dependencies]
serde = { version = "=1.0.229", features = ["derive"] }
serde_json = "=1.0.154"
uuid = { version = "=1.29.0", features = ["v4"] }
http = "=1.5.0"
tokio = { version = "=1.54.1", features = ["process", "sync", "time", "io-util", "rt", "macros"] }
futures-util = "=0.3.34"
log = "=0.4.34"
nix = { version = "=0.31.3", features = ["signal"] }
reqwest = { version = "=0.12.28", default-features = false }
rmcp = { version = "=0.8.5", features = ["client", "transport-sse-client", "transport-sse-client-reqwest", "transport-streamable-http-client", "transport-streamable-http-client-reqwest", "transport-child-process", "reqwest"] }
