[package]
name = "clientapp"
version = "0.1.0"
edition = "2021"
publish = false

[dependencies]
ammonia = "3"
comrak = { version = "0.12", default-features = false }
yew = "0.18"
web-sys = { version = "0.3", features = ["Blob", "DomTokenList", "Element", "EventTarget", "File", "FileList", "FileReader", "HtmlElement", "HtmlImageElement", "HtmlInputElement", "HtmlTextAreaElement", "ProgressEvent"] }
wasm-bindgen = "0.2"
gloo-dialogs = "0.1"
serde = { version = "1", features = ["derive"] }
serde_json = "1"
anyhow = "1"
