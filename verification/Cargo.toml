[package]
name = "presence"
version = "0.1.0"
edition = "2021"
publish = false

[dependencies]
discord-rich-presence = "*"
iced = { version = "=0.13.1", default-features = false, features = ["tiny-skia"] }
iced_aw = { version = "=0.11.0", default-features = false, features = ["drop_down"] }
