[package]
name = "chat_room"
version = "0.1.0"
edition = "2021"
publish = false

[dependencies]
serde_json = "1"
web-sys = { version = "0.3", features = ["HtmlInputElement"] }
yew = "0.19"
yew-agent = "0.1"
