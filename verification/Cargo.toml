[package]
name = "vida"
version = "0.1.0"
edition = "2021"
publish = false

[dependencies]
ac-ffmpeg = "*"
anyhow = "1"
clap = "3"
