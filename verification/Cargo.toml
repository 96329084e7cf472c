[package]
name = "feedback_tape"
version = "0.1.0"
edition = "2021"
publish = false

[dependencies]
gl = "0.14"
gl_loader = "0.1"
tracing = "0.1"
