[package]
name = "mac_window"
version = "0.1.0"
edition = "2021"
publish = false

[dependencies]
accesskit = "=0.25.2"
accesskit_macos = "=0.27.2"
anyhow = "=1.0.104"
block2 = "=0.6.2"
core-foundation-sys = "=0.8.7"
ctor = "=1.0.13"
dispatch2 = "=0.3.1"
futures = "=0.3.34"
log = "=0.4.35"
objc2 = "=0.6.5"
objc2-foundation = "=0.3.2"
parking_lot = "=0.12.5"
raw-window-handle = "=0.6.2"
smallvec = "=1.16.4"
