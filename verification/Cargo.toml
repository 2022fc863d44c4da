[package]
name = "arm_translator"
version = "0.1.0"
edition = "2021"
publish = false

[dependencies]
falcon_capstone = "*"
