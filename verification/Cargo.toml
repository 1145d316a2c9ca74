[package]
name = "hwdiag"
version = "0.1.0"
edition = "2021"
publish = false

[dependencies]
raw-cpuid = "*"
serde = "*"
wmi = "*"
