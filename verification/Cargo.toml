[package]
name = "terminus"
version = "0.1.0"
edition = "2021"
publish = false

[dependencies]
crossterm = "0.25"
dirs = "4"
tui = "0.19"
