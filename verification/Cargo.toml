[package]
name = "plexucra"
version = "0.1.0"
edition = "2021"
publish = false

[dependencies]
anyhow = "=1.0.104"
serde = "=1.0.229"
serde_derive = "=1.0.229"
wasm-bindgen = "=0.2.129"
web-sys = { version = "=0.3.106", features = ["CanvasRenderingContext2d", "DomRect", "DomRectReadOnly", "Element", "HtmlCanvasElement", "HtmlSelectElement", "MouseEvent", "TextMetrics"] }
yew = "=0.18.0"
