[package]
name = "wakemate"
version = "0.1.0"
edition = "2021"
publish = false

[dependencies]
keepawake = "0.5.1"
