[package]
name = "web_markdown"
version = "0.1.0"
edition = "2021"
publish = false

[dependencies]
pulldown-cmark = "*"
web-sys = { version = "=0.3.106", features = ["Event", "MouseEvent"] }
