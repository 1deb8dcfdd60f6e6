[package]
name = "washinoc"
version = "0.1.0"
edition = "2021"
publish = false

[dependencies]
esp-hal = { version = "*", features = ["esp32", "unstable"] }
tm1637-embedded-hal = "*"
