[package]
name = "conformance_harness"
version = "0.1.0"
edition = "2021"
publish = false

[dependencies]
compiletest_rs = "*"
