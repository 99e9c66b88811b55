[package]
name = "atac"
version = "0.16.0"
edition = "2021"
publish = false

[dependencies]
arboard = "=3.7.0"
clap = { version = "=4.6.7", features = ["derive"] }
image = "=0.25.10"
lazy_static = "=1.5.1"
parking_lot = "=0.12.5"
ratatui = "=0.27.0"
regex = "=1.13.1"
regex-syntax = "=0.8.11"
reqwest_cookie_store = "=0.8.2"
serde_json = { version = "=1.0.154", features = ["preserve_order"] }
serde_yaml = "=0.9.34"
toml = "=0.8.23"
tui-tree-widget = "=0.21.0"
