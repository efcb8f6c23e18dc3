[package]
name = "password_generator"
version = "0.1.0"
edition = "2021"
publish = false

[dependencies]
rand = "0.8"
native-windows-gui = "1.0"
native-windows-derive = "1.0"
