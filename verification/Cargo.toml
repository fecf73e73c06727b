[package]
name = "workwatch"
version = "0.1.0"
edition = "2021"
publish = false

[dependencies]
chrono = "*"
crossterm = "*"
dotenv = "*"
ratatui = "*"
reqwest = { version = "*", default-features = false, features = ["json"] }
serde_json = "*"
tokio = { version = "*", features = ["rt", "rt-multi-thread", "macros"] }
tui-input = "*"
