[package]
name = "dock_state"
version = "0.1.0"
edition = "2021"
publish = false

[dependencies]
egui = { version = "*", default-features = false }
serde = { version = "*", features = ["derive"] }
