[package]
name = "todo_term"
version = "0.1.0"
edition = "2021"
publish = false

[dependencies]
crossterm = "0.27"
ratatui = { version = "0.25", features = ["widget-calendar"] }
serde = { version = "1", features = ["derive"] }
serde_json = "1"
time = "0.3"
