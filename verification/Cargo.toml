[package]
name = "post_process_chain"
version = "0.1.0"
edition = "2021"
publish = false

[dependencies]
bevy = { version = "0.16", default-features = false, features = ["bevy_render", "bevy_core_pipeline", "bevy_asset", "bevy_image", "png", "tga"] }
