[package]
name = "audir"
version = "0.1.0"
edition = "2021"
publish = false

[dependencies]
audio_thread_priority = { version = "=0.38.0", default-features = false }
