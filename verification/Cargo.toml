[package]
name = "chatbot_core"
version = "0.1.0"
edition = "2021"
publish = false

[dependencies]
anyhow = "1"
log = "0.4"
openai_chatgpt_api = "=0.2.0"
pretty_env_logger = "*"
takecell = "=0.1.1"
teloxide = { version = "=0.12.2", default-features = false, features = ["rustls", "ctrlc_handler"] }
tokio = { version = "1", features = ["macros", "rt-multi-thread"] }
