[package]
name = "pomodoro"
version = "0.4.2"
edition = "2021"
publish = false

[dependencies]
anyhow = "1"
clap = "2"
mac-notification-sys = "0.3"
