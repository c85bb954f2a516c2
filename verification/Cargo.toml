[package]
name = "led_patterns"
version = "0.1.0"
edition = "2021"
publish = false

[dependencies]
cortex-m = "*"
cortex-m-rt = "*"
panic-halt = "*"
stm32f407g-disc = "*"
