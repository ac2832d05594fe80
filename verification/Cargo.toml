[package]
name = "selection_text"
version = "0.1.0"
edition = "2021"
publish = false

[dependencies]
arboard = "*"
enigo = "*"
core-graphics = "*"
