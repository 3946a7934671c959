[package]
name = "compass_gauge"
version = "0.1.0"
edition = "2021"
publish = false

[dependencies]
cortex-m = "0.7"
cortex-m-rt = "0.7"
embedded-graphics = "0.8"
nb = "1"
panic-halt = "0.2"
ssd1306 = "0.8"
stm32f1xx-hal = { version = "0.10", features = ["stm32f103", "rt"] }
