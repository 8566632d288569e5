[package]
name = "tunnel_supervisor"
version = "0.1.0"
edition = "2021"
publish = false

[dependencies]
cocoa = "0.25"
log = "0.4"
objc = "0.2"
oslog = "0.2"
