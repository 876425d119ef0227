[package]
name = "audio_demux"
version = "0.1.0"
edition = "2021"
publish = false

[dependencies]
symphonia-core = "0.5"
extended = "0.1"
log = "0.4"
