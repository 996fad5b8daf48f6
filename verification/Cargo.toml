[package]
name = "audio_relay"
version = "0.1.0"
edition = "2021"
publish = false

[dependencies]
cpal = "0.15"
rodio = "0.17"
