[package]
name = "wasm_safe_sync"
version = "0.1.0"
edition = "2021"
publish = false

[dependencies]
web-time = "1"
wasm-bindgen = "0.2"
js-sys = "0.3"

[dependencies.web-sys]
version = "0.3"
features = ["AudioNode", "AudioWorkletNode", "AudioWorkletNodeOptions", "BaseAudioContext", "EventTarget"]
