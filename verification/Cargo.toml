[package]
name = "intel_tsx_rtm"
version = "0.1.0"
edition = "2021"
publish = false

[dependencies]
raw-cpuid = "*"
