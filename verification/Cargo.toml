[package]
name = "player_controller"
version = "0.1.0"
edition = "2021"
publish = false

[dependencies]
voxel_engine = { version = "=0.1.0", features = ["egui"] }
wings = "=0.1.5"
