[package]
name = "esp32_s3_box3"
version = "0.1.0"
edition = "2021"
publish = false

[dependencies]
embedded-graphics-core = "0.4"
embedded-graphics = "0.8"
heapless = "0.8"
embedded-hal = "1"
embassy-sync = "0.6"
embassy-time = "0.4"
embassy-futures = "0.1"
critical-section = { version = "1", features = ["std"] }
es8311 = "*"
