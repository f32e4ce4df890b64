[package]
name = "onig_bridge"
version = "0.1.0"
edition = "2021"
publish = false

[dependencies]
onig = { version = "=6.5.3", default-features = false }
onig_sys = { version = "=69.9.3", default-features = false }
jni = "=0.22.4"
thiserror = "=2.0.21"
