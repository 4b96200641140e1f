[package]
name = "age-plugin-yubikey"
version = "0.4.0"
edition = "2021"
publish = false

[dependencies]
bech32 = "0.9"
console = "0.15"
dialoguer = "0.10"
hex = "0.4"
p256 = "0.11"
rand = "0.8"
rusb = "0.9"
sha2 = "0.10"
x509 = "0.2"
x509-parser = "0.14"
yubikey = { version = "0.7", features = ["untested"] }

[dev-dependencies]
cookie-factory = "0.3"
