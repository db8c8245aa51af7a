[package]
name = "gargoyle"
version = "0.1.0"
edition = "2021"
publish = false

[dependencies]
lettre = "0.11"
log = "0.4"
rayon = "1"
reqwest = { version = "0.12", default-features = false, features = ["blocking"] }
sysinfo = "0.30"
