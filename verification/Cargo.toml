[package]
name = "meal_composer"
version = "0.1.0"
edition = "2021"
publish = false

[dependencies]
rand = "0.8"
dioxus = { version = "0.6", features = ["web", "router"] }
