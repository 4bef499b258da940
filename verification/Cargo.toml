[package]
name = "usb_keypad"
version = "0.1.0"
edition = "2021"
publish = false

[dependencies]
defmt = "0.3"
defmt-rtt = "0.4"
embassy-executor = { version = "=0.7.0", features = ["arch-std", "executor-thread", "defmt"] }
embassy-stm32 = { version = "=0.2.0", features = ["stm32f429zi", "time-driver-any", "exti", "defmt", "memory-x"] }
embassy-time = { version = "=0.4.0", features = ["defmt"] }
embassy-usb = { version = "=0.4.0", features = ["defmt"] }
embedded-hal = "=1.0.0"
panic-probe = { version = "0.3", features = ["print-defmt"] }
static_cell = "2"
usbd-hid = "=0.8.2"

[dev-dependencies]
ssmarshal = { version = "1.0", default-features = false }
