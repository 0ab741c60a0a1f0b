[package]
name = "bevy_ui_dsl"
version = "0.1.0"
edition = "2021"
publish = false

[dependencies]
bevy_asset = "0.14"
bevy_color = "0.14"
bevy_ecs = "0.14"
bevy_hierarchy = "0.14"
