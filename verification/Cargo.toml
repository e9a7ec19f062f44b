[package]
name = "usb_dfu"
version = "0.1.0"
edition = "2021"
publish = false

[dependencies]
cortex-m = "=0.7.9"
defmt = "=1.1.1"
defmt-rtt = "=1.3.0"
embassy-executor = { version = "=0.9.1", features = ["arch-std", "executor-thread"] }
embassy-futures = "=0.1.2"
embassy-nrf = { version = "=0.11.0", features = ["nrf52840", "unstable-pac"] }
embassy-time = "=0.5.1"
embassy-usb = "=0.6.0"
panic-probe = "=1.0.0"
