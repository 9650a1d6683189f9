[package]
name = "vie_core"
version = "0.1.0"
edition = "2021"
publish = false

[dependencies]
unicode-segmentation = "1"
anyhow = "1"
thiserror = "1"
crossterm = "0.19"
