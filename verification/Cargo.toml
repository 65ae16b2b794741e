[package]
name = "nacos_console"
version = "0.1.0"
edition = "2021"
publish = false

[dependencies]
ratatui = "0.29"
tui-textarea = "0.7"
reqwest = { version = "0.12", default-features = false, features = ["json"] }
tokio = { version = "1", default-features = false, features = ["macros", "rt-multi-thread"] }
serde = { version = "1", features = ["derive"] }
config = { version = "0.14", default-features = false, features = ["toml"] }
