[package]
name = "spongify"
version = "0.1.0"
edition = "2021"
publish = false

[dependencies]
bytes = "1"
clap = { version = "4", features = ["derive"] }
copypasta-ext = "0.4"
fontdue = "0.7"
image = { version = "0.24", default-features = false, features = ["jpeg"] }
rand = "0.8"
