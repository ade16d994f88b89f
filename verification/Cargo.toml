[package]
name = "kernel_pca"
version = "0.1.0"
edition = "2021"

[dependencies]
nalgebra = "*"
num = "*"
