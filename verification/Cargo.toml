[package]
name = "snippy"
version = "0.1.0"
edition = "2021"
publish = false

[dependencies]
clipboard = "0.5"
crossterm = "0.25"
serde = { version = "1", features = ["derive"] }
serde_derive = "1"
serde_json = "1"
tui = "0.19"
