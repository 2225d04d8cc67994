[package]
name = "blinky_shell"
version = "0.1.0"
edition = "2021"
publish = false

[dependencies]
btoi = "=0.5.0"
ushell = "0.3.6"
cortex-m = "0.7"
cortex-m-rt = "*"
cortex-m-rtic = "1"
panic-halt = "*"
stm32g0xx-hal = { version = "0.1.5", features = ["rt", "stm32g071"] }

[dev-dependencies]
nb = "1"
embedded-hal = "0.2"
