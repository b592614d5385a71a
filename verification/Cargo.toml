[package]
name = "cpu6502"
version = "0.1.0"
edition = "2021"
publish = false

[dependencies]
arrayvec = "0.7"
disasm6502 = "*"
log = "0.4"
