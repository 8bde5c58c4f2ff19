[package]
name = "qsc_data_structures"
version = "0.1.0"
edition = "2021"
publish = false

[dependencies]
bitflags = "2"
serde = { version = "1", features = ["derive"] }
