[package]
name = "dubbo_triple"
version = "0.1.0"
edition = "2021"
publish = false
