[package]
name = "ui_common"
version = "0.1.0"
edition = "2021"
publish = false

[dependencies]
convert_case = "0.6"
serde = { version = "1", features = ["derive"] }
serde_json = "1"
anyhow = "1"
yew = { version = "0.21", features = ["csr"] }
yew-hooks = "0.3"
yew-nested-router = "0.7"
web-sys = { version = "0.3", features = ["HtmlElement", "Element", "DomRect", "DomTokenList", "Window", "Document", "Event", "KeyboardEvent", "MouseEvent", "TouchEvent"] }
gloo-utils = "0.2"
js-sys = "0.3"
