[package]
name = "invite_protocol"
version = "0.1.0"
edition = "2021"
publish = false

[dependencies]
sha2 = "*"
uuid = { version = "*", features = ["v4"] }
regex = "*"
unicode-normalization = "*"
email-address-parser = "*"
