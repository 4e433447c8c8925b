[package]
name = "rfvp"
version = "0.1.0"
edition = "2021"
publish = false

[dependencies]
anyhow = "1"
atomic_refcell = "0.1"
downcast-rs = "1"
hecs = "0.10"
