[package]
name = "alacritty_background"
version = "0.1.0"
edition = "2021"
publish = false

[dependencies]
gl = "=0.14.0"
parking_lot = "0.12"
rusty_ffmpeg = "0.13"
winit = "=0.30.13"
