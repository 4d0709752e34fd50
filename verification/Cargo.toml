[package]
name = "torque_stabilizer"
version = "0.1.0"
edition = "2021"
rust-version = "1.95"
publish = false

[dependencies]
bevy = { version = "=0.16.1", default-features = false, features = ["std", "bevy_pbr", "tonemapping_luts"] }
bevy_rapier3d = { version = "=0.30.0", default-features = false, features = ["dim3", "debug-render-3d"] }
rapier3d = "=0.25.1"
