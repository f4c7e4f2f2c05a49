[package]
name = "perf_overlay"
version = "0.1.0"
edition = "2021"
publish = false

[dependencies]
nvml-wrapper = "0.10"
sysinfo = { version = "0.32", default-features = false, features = ["system"] }
global-hotkey = "0.6"
