[package]
name = "radio_pipeline"
version = "0.1.0"
edition = "2021"
publish = false

[dependencies]
parking_lot = "0.12"
reqwest = { version = "0.12", default-features = false, features = ["blocking"] }
rodio = "0.19"
symphonia = { version = "0.5", features = ["mp3"] }
