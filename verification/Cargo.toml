[package]
name = "freebsd-geom"
version = "0.1.0"
edition = "2021"
publish = false

[dependencies]
quick-xml = { version = "=0.42.0", features = ["serialize"] }
serde = { version = "=1.0.229", features = ["derive"] }
strum_macros = "=0.28.0"
sysctl = "=0.7.1"

[dev-dependencies]
scan_fmt = "=0.2.6"
