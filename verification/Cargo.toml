[package]
name = "llvm"
version = "0.1.0"
edition = "2021"
publish = false

[dependencies]
cbox = "*"
libc = "*"
llvm-sys = "*"
