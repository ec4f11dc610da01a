[package]
name = "model_session"
version = "0.1.0"
edition = "2021"
publish = false

[dependencies]
llm = "0.1"
rand = "0.8"
serde = { version = "1", features = ["derive"] }
serde-wasm-bindgen = "0.4"
wasm-bindgen = "0.2"
wasm-bindgen-futures = "0.4"
web-sys = { version = "0.3", features = ["EventTarget", "HtmlInputElement", "HtmlSelectElement"] }
yew = { version = "0.20", features = ["csr"] }
