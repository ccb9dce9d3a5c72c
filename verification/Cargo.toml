[package]
name = "rusty_synth"
version = "0.1.0"
edition = "2021"
publish = false

[dependencies]
chan = "*"
chan-signal = "*"
portmidi = "*"
sdl2 = "*"
