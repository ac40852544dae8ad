[package]
name = "stm32f7_discovery"
version = "0.1.0"
edition = "2021"
publish = false

[dependencies]
bit_field = "=0.10.3"
byteorder = { version = "=1.5.0", default-features = false }
arrayvec = { version = "=0.7.8", default-features = false }
font8x8 = { version = "=0.3.1", default-features = false, features = ["unicode"] }
cortex-m = "0.7"
