[package]
name = "donut_tell_me"
version = "0.1.0"
edition = "2021"
publish = false

[dependencies]
bevy = { version = "0.8", default-features = false, features = ["bevy_asset", "bevy_winit", "render", "png", "x11"] }
bevy_asset_loader = "0.13"
bevy_common_assets = { version = "0.3", features = ["json"] }
bevy-inspector-egui = "0.12"
bevy_ninepatch = "0.8"
rand = "0.8"
serde = { version = "1", features = ["derive"] }
