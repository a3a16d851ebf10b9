[package]
name = "wavetable"
version = "0.1.0"
edition = "2021"
publish = false

[dependencies]
anyhow = "1"
clap = { version = "3", features = ["derive"] }
cpal = "0.13"
num = "0.4"
portmidi = "0.2"
rustfft = "6"
sndfile-sys = "0.2"
