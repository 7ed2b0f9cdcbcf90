[package]
name = "nes_emu"
version = "0.1.0"
edition = "2021"
publish = false

[dependencies]
image = "0.25"
piston_window = "0.148"
gfx_device_gl = "0.16"
gilrs = "0.11"
chrono = "0.4"
