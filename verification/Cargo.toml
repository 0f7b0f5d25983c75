[package]
name = "stm32_pwm"
version = "0.1.0"
edition = "2021"
publish = false

[dependencies]
stm32-metapac = { version = "*", features = ["stm32f407vg"] }
critical-section = "1"
embassy-hal-common = "*"
