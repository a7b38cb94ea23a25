[package]
name = "yew_side_effect"
version = "0.1.0"
edition = "2021"
publish = false

[dependencies]
yew = "0.19"
gloo-utils = "0.1"
once_cell = "1"
