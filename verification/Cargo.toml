[package]
name = "hearton_public"
version = "0.13.2"
edition = "2021"
publish = false

[dependencies]
bevy_app = "=0.13.2"
bevy_asset = "=0.13.2"
bevy_ecs = "=0.13.2"
bevy_input = "=0.13.2"
bevy_math = "=0.13.2"
bevy_reflect = "=0.13.2"
bevy_time = "=0.13.2"
bevy_transform = "=0.13.2"
bevy_utils = "=0.13.2"
chrono = "0.4"
once_cell = "1"
ron = "0.8"
serde = { version = "1", features = ["derive"] }
serde_json = "1"
thiserror = "1"
toml = "0.8"
tracing = "0.1"
