[package]
name = "tag_editor"
version = "0.1.0"
edition = "2021"
publish = false

[dependencies]
audiotags = "*"
clearscreen = "*"
rustyline = "*"
