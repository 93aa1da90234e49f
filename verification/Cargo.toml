[package]
name = "evm_tools"
version = "0.1.0"
edition = "2021"
publish = false

[dependencies]
clap = { version = "4", default-features = false, features = ["std", "derive", "help", "usage", "error-context"] }
csv = "1"
dotenv = "0.15"
env_logger = { version = "0.10", default-features = false, features = ["humantime"] }
ethers = { version = "2.0", default-features = false }
log = "0.4"
rand = "0.8"
serde = { version = "1", features = ["derive"] }
serde_json = "1"
tokio = { version = "1", features = ["macros", "rt-multi-thread"] }
