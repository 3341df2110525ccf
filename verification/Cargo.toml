[package]
name = "mat_dialog"
version = "0.1.0"
edition = "2021"
publish = false

[dependencies]
yew = "=0.18.0"
gloo = "=0.2.1"
js-sys = "=0.3.106"
wasm-bindgen = "=0.2.129"
web-sys = { version = "=0.3.106", features = ["CustomElementRegistry", "CustomEvent", "Element", "Event", "EventTarget", "Node", "Window"] }
