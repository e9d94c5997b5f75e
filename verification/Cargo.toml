[package]
name = "oled_player"
version = "0.1.0"
edition = "2021"
publish = false

[dependencies]
gpio-cdev = "*"
spidev = "*"
rand = "*"
