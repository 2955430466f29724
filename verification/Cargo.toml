[package]
name = "steamdeck_controller_hidraw"
version = "0.1.0"
edition = "2021"
publish = false

[dependencies]
hidraw = "*"
mio = { version = "*", features = ["os-poll", "os-ext"] }
rand = "*"
