[package]
name = "weather_card"
version = "0.1.0"
edition = "2021"
publish = false

[dependencies]
clap = "4"
image = "0.24"
imageproc = "0.23"
rand = "0.8"
rusttype = "0.9"
serde = "1"
serde_derive = "1"
serde_json = "1"
