[package]
name = "stm32f0xx-hal"
version = "0.18.0"
edition = "2021"
publish = false

[dependencies]
cast = { version = "0.3", default-features = false }
cortex-m = "0.7"
embedded-hal = { version = "0.2", features = ["unproven"] }
nb = "1"
void = { version = "1", default-features = false }
embedded-storage = "0.3"
bxcan = "0.7"
stm32-usbd = "0.6"
stm32f0 = { version = "0.15", features = ["stm32f0x2"] }
