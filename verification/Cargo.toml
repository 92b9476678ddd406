[package]
name = "voiceflow"
version = "0.1.0"
edition = "2021"
publish = false

[dependencies]
arboard = { version = "=3.7.0", default-features = false }
enigo = { version = "=0.2.1", default-features = false, features = ["x11rb"] }
