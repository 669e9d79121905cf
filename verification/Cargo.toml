[package]
name = "bevy_wireframe"
version = "0.1.0"
edition = "2021"
publish = false

[dependencies]
bevy = { version = "0.14", default-features = false }
bitflags = "2"
bytemuck = "1"
