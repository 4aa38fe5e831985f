[package]
name = "audio_pipeline"
version = "0.1.0"
edition = "2021"
publish = false

[dependencies]
realfft = "=3.5.0"
circular-buffer = "=1.2.1"
rodio = "=0.22.2"
audiotags = "=0.5.0"
