[package]
name = "yatt"
version = "0.1.0"
edition = "2021"
publish = false

[dependencies]
ropey = "=1.6.1"
katex = "=0.4.6"
sourcefile = "=0.2.1"
fs_extra = "=1.3.0"
