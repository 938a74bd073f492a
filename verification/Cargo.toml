[package]
name = "haptic_actuator"
version = "0.1.0"
edition = "2021"
publish = false

[dependencies]
core-foundation = "*"
core-foundation-sys = "*"
mach2 = "*"
objc-foundation = "*"
