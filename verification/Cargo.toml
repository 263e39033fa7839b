[package]
name = "starboard"
version = "0.1.0"
edition = "2021"
publish = false

[dependencies]
chrono = "0.4"
tokio = { version = "1", features = ["full"] }
evdev = "*"
sdl2 = "*"

[dev-dependencies]
bincode = "2"
