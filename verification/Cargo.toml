[package]
name = "rustic_yellow"
version = "0.1.0"
edition = "2021"
publish = false

[dependencies]
pokemon-sprite-compression = "=0.1.2"
image = { version = "=0.25.10", default-features = false, features = ["png"] }
image-gameboy = "=0.1.0"
pokemon-synthesizer = "=0.2.2"
