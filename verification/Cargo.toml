[package]
name = "rpierogis"
version = "0.1.0"
edition = "2021"
publish = false

[dependencies]
image = { version = "*", default-features = false }
mmpx = "*"
rscolorq = { version = "*", default-features = false }
rayon = "*"
