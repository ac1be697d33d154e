[package]
name = "patina"
version = "0.1.0"
edition = "2021"
publish = false

[dependencies]
bit_reverse = "=0.1.8"
fnv = "=1.0.7"
clap = { version = "4.5", features = ["derive"] }
ctrlc = "3.4"
chrono = { version = "0.4", default-features = false, features = ["clock"] }
image = { version = "0.25", default-features = false, features = ["png"] }
rodio = "0.21"
winit = { version = "0.30", default-features = false, features = ["x11", "rwh_06"] }
