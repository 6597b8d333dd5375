[package]
name = "meme_frontend"
version = "0.1.0"
edition = "2021"
publish = false

[dependencies]
yew = { version = "0.21", features = ["csr"] }
gloo-net = { version = "*", default-features = false, features = ["http", "json"] }
serde = { version = "1", features = ["derive"] }
wasm-bindgen-futures = "0.4"
web-sys = { version = "0.3", features = ["Blob", "Event", "HtmlInputElement", "HtmlSelectElement", "InputEvent", "Url"] }
