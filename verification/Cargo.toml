[package]
name = "voicebank"
version = "0.1.0"
edition = "2021"
publish = false

[dependencies]
anyhow = "1"
clap = "3"
cpal = "0.13"
crossbeam = "0.8"
