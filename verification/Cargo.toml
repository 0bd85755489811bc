[package]
name = "mcp_git_tools"
version = "0.1.0"
edition = "2021"
publish = false

[dependencies]
async-trait = "=0.1.92"
mcp-server = "=0.1.0"
mcp-spec = "=0.1.0"
schemars = "=0.8.22"
serde = { version = "=1.0.229", features = ["derive"] }
serde_json = "=1.0.154"
tokio = { version = "=1.54.1", features = ["macros", "rt-multi-thread", "io-std", "io-util"] }
tracing-subscriber = { version = "=0.3.23", features = ["env-filter"] }
