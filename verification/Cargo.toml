[package]
name = "opus_codec"
version = "0.1.0"
edition = "2021"
publish = false

[dependencies]
jni = "0.21"
opus = "0.3"
