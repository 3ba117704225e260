[package]
name = "include_absolute_path"
version = "0.1.0"
edition = "2021"
publish = false

[dependencies]
shellexpand = { version = "3", default-features = false, features = ["base-0"] }
syn = "2"
quote = "1"
