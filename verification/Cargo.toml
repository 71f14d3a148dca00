[package]
name = "text_agent"
version = "0.1.0"
edition = "2021"
publish = false

[dependencies]
egui = { version = "=0.31.1", default-features = false }
log = "=0.4.34"
wasm-bindgen = "=0.2.129"
web-sys = { version = "=0.3.106", features = ["CompositionEvent", "CssStyleDeclaration", "Document", "DomRect", "Element", "Event", "EventTarget", "HtmlCanvasElement", "HtmlElement", "HtmlInputElement", "InputEvent", "KeyboardEvent", "Navigator", "Node", "ShadowRoot", "Window"] }
