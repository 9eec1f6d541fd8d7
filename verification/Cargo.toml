[package]
name = "motion_sampler"
version = "0.1.0"
edition = "2021"
publish = false

[dependencies]
critical-section = "=1.2.0"
embedded-dht-rs = { version = "=0.5.0", features = ["dht22"] }
esp-backtrace = "*"
esp-bootloader-esp-idf = "*"
esp-hal = "*"
esp-println = "*"
