[package]
name = "fgbdump"
version = "0.1.0"
edition = "2021"
publish = false

[dependencies]
argh = "*"
crossterm = "*"
flatbuffers = "*"
flatgeobuf = "*"
proj = "*"
ratatui = "*"
tokio = { version = "*", features = ["macros", "rt-multi-thread"] }
