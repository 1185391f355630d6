[package]
name = "image_ascii"
version = "0.1.0"
edition = "2021"
publish = false

[dependencies]
base64 = "0.13"
gloo-file = "0.2"
image = { version = "0.24", default-features = false, features = ["png"] }
js-sys = "0.3"
log = "0.4"
wasm-logger = "0.2"
web-sys = { version = "0.3", features = ["Event", "EventTarget", "File", "FileList", "HtmlInputElement"] }
yew = "0.19"
