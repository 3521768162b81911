[package]
name = "flight_sequencer"
version = "0.1.0"
edition = "2021"
publish = false

[dependencies]
heapless = { version = "0.7", default-features = false }
serde = { version = "1", features = ["derive"] }
embedded-hal = "0.2"
