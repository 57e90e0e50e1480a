[package]
name = "mp3_player"
version = "0.1.0"
edition = "2021"
publish = false

[dependencies]
walkdir = "*"
rodio = "*"
crossterm = "*"
