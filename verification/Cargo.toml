[package]
name = "sunder"
version = "0.1.0"
edition = "2021"
publish = false

[dependencies]
goblin = "0.10"
iced-x86 = { version = "1.21", default-features = false, features = ["std", "decoder", "intel"] }
