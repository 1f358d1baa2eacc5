[package]
name = "frame_timer"
version = "0.1.0"
edition = "2021"
publish = false

[dependencies]
egui = "=0.33.3"
egui-sdl2-event = "=1.33.3"
egui-wgpu = "0.33"
pollster = "=1.0.1"
sdl2 = "=0.38.0"
