[package]
name = "chess_gui"
version = "0.5.0"
edition = "2021"
publish = false

[dependencies]
masonry = { version = "=0.4.0", default-features = false }
masonry_winit = { version = "=0.4.0", default-features = false }
tokio = { version = "=1.54.1", default-features = false, features = ["time"] }
winit = "=0.30.13"
xilem = { version = "=0.4.0", default-features = false }

# Held back so that xilem's tree resolves to fewer duplicate crates.
flate2 = { version = "=1.1.5", default-features = false }
indexmap = { version = "=2.13.0", default-features = false }
jobserver = "=0.1.34"
libredox = { version = "=0.1.10", default-features = false }
swash = { version = "=0.2.6", default-features = false }
