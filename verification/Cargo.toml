[package]
name = "defren"
version = "0.1.0"
edition = "2021"
publish = false

[dependencies]
gl = "0.14"
glam = "*"
sdl2 = "*"
serde = "1"
serde_derive = "1"
serde_json = "1"
chrono = "*"
log = "0.4"
