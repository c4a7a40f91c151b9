[package]
name = "types_editor"
version = "0.1.0"
edition = "2021"
publish = false

[dependencies]
xml-rs = "0.8"
tui = "0.19"
crossterm = "0.25"
ssh2 = "0.9"
