[package]
name = "feishu_sync_tool"
version = "0.1.0"
edition = "2021"
publish = false

[dependencies]
winreg = "*"
