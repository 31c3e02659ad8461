[package]
name = "video_feed"
version = "0.1.0"
edition = "2021"
publish = false

[dependencies]
candid = "*"
futures = "0.3"
