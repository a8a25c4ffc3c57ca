[package]
name = "melody_synth"
version = "0.1.0"
edition = "2021"
publish = false

[dependencies]
clap = { version = "=4.4.18", features = ["cargo"] }
rodio = "=0.17.3"
