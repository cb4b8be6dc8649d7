[package]
name = "codec_bench"
version = "0.1.0"
edition = "2021"
publish = false

[dependencies]
qoi = "*"
rapid-qoi = "*"
turbojpeg = "*"
