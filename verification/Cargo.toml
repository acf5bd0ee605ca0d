[package]
name = "hid_report"
version = "0.1.0"
edition = "2021"
publish = false

[dependencies]
rusb = "0.9"
