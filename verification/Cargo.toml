[package]
name = "gifterm"
version = "0.1.0"
edition = "2021"
publish = false

[dependencies]
gif = "=0.14.2"
image = "=0.25.10"
ratatui = "=0.30.2"
ratatui-image = { version = "=11.1.0", default-features = false, features = ["image-defaults", "crossterm"] }
crossterm = "=0.29.0"
