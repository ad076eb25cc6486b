[package]
name = "ble_hci"
version = "0.1.0"
edition = "2021"
publish = false

[dependencies]
critical-section = "1"
embedded-graphics = "0.8"
embedded-hal-bus = "0.2"
embedded-io = "=0.6.1"
esp-backtrace = { version = "0.13", features = ["esp32", "panic-handler", "println"] }
esp-hal = { version = "0.19", features = ["esp32"] }
esp-println = { version = "0.10", features = ["esp32"] }
esp-wifi = { version = "0.7", features = ["esp32", "ble"] }
fugit = "0.3"
pcf8563 = "0.1"
