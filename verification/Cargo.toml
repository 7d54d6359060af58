[package]
name = "kilo"
version = "0.1.0"
edition = "2021"

[dependencies]
term_size = "0.3"
termios = "0.3"
