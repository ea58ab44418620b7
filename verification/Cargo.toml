[package]
name = "ratatoskr_subscriptions"
version = "0.1.0"
edition = "2021"
publish = false

[dependencies]
chrono = "*"
url = "*"
