[package]
name = "indium"
version = "0.1.0"
edition = "2021"
publish = false

[dependencies]
enigo = "0.3"
iced = { version = "0.13", default-features = false, features = ["tiny-skia"] }
