[package]
name = "audio_engine"
version = "0.1.0"
edition = "2021"
publish = false

[dependencies]
anyhow = "1"
base64 = "0.22"
cpal = "0.15"
crossbeam-channel = "0.5"
log = "0.4"
ndarray = "0.16"
ort = { version = "2.0.0-rc.9", default-features = false, features = ["ndarray", "load-dynamic"] }
reqwest = { version = "0.12", features = ["blocking"] }
ringbuf = "0.4"
rubato = "0.15"
serde = { version = "1", features = ["derive"] }
serde_json = "1"
tungstenite = { version = "0.24", features = ["native-tls"] }
