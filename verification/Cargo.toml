[package]
name = "node_sound_core"
version = "0.1.0"
edition = "2021"
publish = false

[dependencies]
rand = "=0.8.8"
serde = { version = "=1.0.229", features = ["derive"] }
ron = "=0.8.1"
dyn-clone = "=1.0.20"
ordered-float = "=5.5.1"
rodio = { version = "=0.21.1", default-features = false }
egui = "=0.37.0"
