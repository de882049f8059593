[package]
name = "bevy_equirect"
version = "0.1.0"
edition = "2021"
publish = false

[dependencies]
bevy_app = "0.16"
bevy_asset = "0.16"
bevy_ecs = "0.16"
bevy_image = "0.16"
glam = "0.29"
wgpu-types = "24"
