[package]
name = "iced_on_focus_text_input"
version = "0.1.0"
edition = "2021"
publish = false

[dependencies]
iced = { version = "=0.12.1", default-features = false, features = ["advanced"] }
