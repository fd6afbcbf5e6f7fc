[package]
name = "output_stream"
version = "0.1.0"
edition = "2021"
publish = false

[dependencies]
cpal = "=0.15.3"
tracing = "0.1"
