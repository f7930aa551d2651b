[package]
name = "hack_emulator"
version = "0.1.0"
edition = "2021"

[dependencies]
hack-assembler = "*"
quicksilver = "0.3"
