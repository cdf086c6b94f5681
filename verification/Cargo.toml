[package]
name = "proto_hal"
version = "0.1.0"
edition = "2021"
publish = false

[dependencies]
cortex-m = "0.7"
imxrt-iomuxc = "0.1"
