[package]
name = "canonical_png"
version = "0.1.0"
edition = "2021"
publish = false

[dependencies]
lodepng = "=3.12.2"
rgb = "=0.8.53"
sha2 = "=0.10.9"
clap = { version = "=4.6.7", features = ["derive"] }

[dev-dependencies]
flate2 = { version = "=1.1.10", default-features = false }
