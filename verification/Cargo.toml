[package]
name = "knowchat"
version = "0.1.0"
edition = "2021"
publish = false

[dependencies]
serde_json = "*"
colored = "*"
ctrlc = "*"
dialoguer = "*"
dotenv = "*"
indicatif = "*"
log = "*"
pretty_env_logger = "*"
tokio = { version = "*", features = ["macros", "rt-multi-thread"] }
langchain-rust = "*"
