[package]
name = "remotepkg"
version = "0.1.0"
edition = "2021"
publish = false

[dependencies]
debpkg = "*"
fez = "*"
infer = "*"
reqwest = { version = "*", default-features = false, features = ["blocking"] }

[dev-dependencies]
tar = "*"
flate2 = "*"
