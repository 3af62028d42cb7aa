[package]
name = "resume_scan"
version = "0.1.0"
edition = "2021"
publish = false

[dependencies]
regex = "1"
csv = "1"
pdf-extract = "*"
walkdir = "2"
