[package]
name = "heif_demux"
version = "0.1.0"
edition = "2021"
publish = false

[dependencies]
anyhow = "*"
libheif-rs = "*"
