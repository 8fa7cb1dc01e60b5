[package]
name = "adxl343"
version = "0.1.0"
edition = "2021"
publish = false

[dependencies]
embedded-hal = "1.0"
modular-bitfield = "*"
derive_setters = "*"

[dev-dependencies]
embedded-hal-mock = { version = "*", default-features = false, features = ["eh1"] }
