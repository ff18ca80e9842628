[package]
name = "wcore"
version = "0.1.0"
edition = "2021"
publish = false

[dependencies]
crossbeam = "=0.8.5"
instant = "=0.1.13"
symphonia = "=0.5.5"
rubato = "=0.13.0"
cpal = "=0.13.5"
