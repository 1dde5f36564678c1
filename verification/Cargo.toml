[package]
name = "nazad"
version = "0.1.0"
edition = "2021"
publish = false

[dependencies]
chrono = "0.4"
dioxus = "0.4"
dioxus-web = "0.4"
serde_json = "1"
