[package]
name = "esp_p4_psram"
version = "0.1.0"
edition = "2021"
publish = false

[dependencies]
esp32p4 = "0.2"
