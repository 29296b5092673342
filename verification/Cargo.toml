[package]
name = "emulator"
version = "0.1.0"
edition = "2021"
publish = false

[dependencies]
minifb = "=0.29.0"
once_cell = "=1.21.4"
rodio = "=0.17.3"
wasm-timer = "=0.2.5"
