[package]
name = "image_lab"
version = "0.1.0"
edition = "2021"
publish = false

[dependencies]
base64 = "0.22"
urlencoding = "2"
gloo-net = { version = "0.6", default-features = false, features = ["http"] }
js-sys = "0.3"
wasm-bindgen = "0.2"
wasm-bindgen-futures = "0.4"
web-sys = { version = "0.3", features = ["Window", "Event", "EventTarget", "HtmlInputElement", "HtmlSelectElement", "HtmlTextAreaElement", "InputEvent"] }
yew = { version = "0.21", features = ["csr"] }
