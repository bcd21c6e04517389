[package]
name = "cursive-async-view"
version = "0.1.0"
edition = "2021"
publish = false

[dependencies]
crossbeam = "=0.8.5"
cursive = { version = "=0.17.0", default-features = false }
log = "=0.4.34"
num = "=0.4.3"
send_wrapper = "=0.5.0"

[dev-dependencies]
interpolation = "0.2"
