[package]
name = "sensor_drivers"
version = "0.1.0"
edition = "2021"
publish = false

[dependencies]
embassy-stm32 = { version = "=0.6.0", features = ["stm32h563zi", "exti"] }
embassy-embedded-hal = "=0.6.0"
cortex-m = "=0.7.10"
talc = "*"
spinning_top = "*"
