[package]
name = "chat_client"
version = "0.1.0"
edition = "2021"
publish = false

[dependencies]
yew = { version = "=0.23.0", features = ["csr"] }
gloo-net = "=0.7.0"
web-sys = { version = "*", features = ["HtmlTextAreaElement"] }
