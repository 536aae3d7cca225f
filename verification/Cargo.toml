[package]
name = "audio_sender"
version = "0.1.0"
edition = "2021"
publish = false

[dependencies]
anyhow = "1"
clap = "4"
cpal = "0.15"
