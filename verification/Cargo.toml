[package]
name = "gate_runner"
version = "0.1.0"
edition = "2021"
publish = false

[dependencies]
turborand = "=0.10.1"
bevy_turborand = "=0.11.0"
bevy = { version = "=0.16.1", default-features = false, features = ["std", "bevy_state"] }
avian3d = { version = "0.3", default-features = false, features = ["3d", "f32", "parry-f32"] }
ron = "=0.8.1"
serde = { version = "1", features = ["derive"] }
