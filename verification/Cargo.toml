[package]
name = "dark_adapters"
version = "0.1.0"
edition = "2021"
publish = false

[dependencies]
bevy = { version = "=0.11.3", default-features = false, features = ["bevy_asset"] }
bevy_common_assets = { version = "0.7", features = ["json"] }
bevy_tweening = { version = "=0.8.0", default-features = false }
serde = { version = "1", features = ["derive"] }
