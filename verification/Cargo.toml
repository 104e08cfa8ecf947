[package]
name = "cornix_leds"
version = "0.1.0"
edition = "2021"
publish = false

[dependencies]
embassy-time = "=0.5.1"
embassy-nrf = { version = "=0.11.0", features = ["nrf52840", "gpiote", "time", "unstable-pac"] }
rmk = { version = "=0.9.0", default-features = false, features = ["split"] }

[dev-dependencies]
embassy-time = { version = "=0.5.1", features = ["mock-driver"] }
critical-section = { version = "1.2", features = ["std"] }
