[package]
name = "timer_app"
version = "0.1.0"
edition = "2021"
publish = false

[dependencies]
chrono = "0.4"
csv = "1"
mqtt-protocol = "=0.12.0"
seed = "=0.9.2"
serde = { version = "1", features = ["derive"] }
serde_dhall = "=0.13.0"
serde_json = "=1.0.154"
ulid = "=3.0.0"
wasm-bindgen = "=0.2.92"
web-sys = { version = "0.3", features = ["AudioContext", "AudioDestinationNode", "AudioNode", "AudioParam", "GainNode", "OscillatorNode"] }
