[package]
name = "yatui"
version = "0.1.0"
edition = "2021"
publish = false

[dependencies]
crossterm = "0.27"
flume = "=0.11.1"
ratatui = "=0.26.3"
reqwest = { version = "0.12", default-features = false, features = ["blocking"] }
symphonia = { version = "=0.5.5", default-features = false, features = ["mp3", "aac", "isomp4"] }
tokio = { version = "1", features = ["rt-multi-thread", "macros"] }
yandex-music = "=0.4.10"
