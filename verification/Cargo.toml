[package]
name = "headunit"
version = "0.1.0"
edition = "2021"
publish = false

[dependencies]
embedded-graphics = "0.8"
esp-hal = "*"
esp-println = "*"
esp-alloc = "*"
esp-bootloader-esp-idf = "*"
