[package]
name = "nvgpu"
version = "0.1.0"
edition = "2021"
publish = false

[dependencies]
bitfield = "0.13"
bitflags = "1"
nix = "0.21"
num-traits = "0.2"
