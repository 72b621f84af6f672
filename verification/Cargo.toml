[package]
name = "tilewm"
version = "0.1.0"
edition = "2021"
publish = false

[dependencies]
x11rb = "0.13"
thiserror = "2"
tracing = "0.1"
tracing-subscriber = "0.3"
