[package]
name = "wavescope"
version = "0.1.0"
edition = "2021"
publish = false

[dependencies]
ringbuf = "0.2"
nannou_audio = "0.18"
