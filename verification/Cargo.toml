[package]
name = "potatocho"
version = "0.1.0"
edition = "2021"
publish = false

[dependencies]
rand = "=0.8.8"
sdl2 = "=0.35.2"
rfd = { version = "=0.17.2", default-features = false, features = ["xdg-portal"] }
