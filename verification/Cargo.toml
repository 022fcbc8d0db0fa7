[package]
name = "super_mega_chatroom"
version = "0.1.0"
edition = "2021"
publish = false

[dependencies]
tokio = { version = "=1.53.2", features = ["rt-multi-thread", "macros", "net", "io-util", "sync", "time"] }
clap = { version = "=4.6.7", features = ["derive"] }
crossterm = { version = "=0.25.0", features = ["event-stream"] }
tui = "=0.19.0"
futures = "=0.3.34"
