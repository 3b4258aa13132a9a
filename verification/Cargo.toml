[package]
name = "ad983x"
version = "1.0.0"
edition = "2021"
publish = false

[dependencies]
embedded-hal = "1.0"

[dev-dependencies]
embedded-hal-mock = { version = "*", default-features = false, features = ["eh1"] }
