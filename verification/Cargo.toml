[package]
name = "radar_egui"
version = "0.1.0"
edition = "2021"
publish = false

[dependencies]
eframe = { version = "=0.31.1", default-features = false, features = ["default_fonts", "glow", "x11"] }
egui = "=0.31.1"
log = "0.4"
libc = "0.2"
pcd-rs = "0.13"
serde = { version = "1", features = ["derive"] }
serde_json = "1"
serial2 = "0.2"
tokio = { version = "1", features = ["rt", "rt-multi-thread", "sync", "time", "macros"] }
zmq2 = "0.5"
