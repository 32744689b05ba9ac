[package]
name = "bass_rs"
version = "0.1.0"
edition = "2021"
publish = false

[dependencies]
bass-sys = "=2.3.0"
widestring = "=1.2.1"
thiserror = "=2.0.21"
