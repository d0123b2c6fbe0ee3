[package]
name = "nes_host"
version = "0.1.0"
edition = "2021"
publish = false

[dependencies]
failure = "0.1"
log = "0.4"
pix-engine = "*"
sdl2 = "*"
serde = { version = "1", features = ["derive"] }
