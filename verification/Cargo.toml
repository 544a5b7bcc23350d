[package]
name = "font_context"
version = "0.1.0"
edition = "2021"
publish = false

[dependencies]
malloc_size_of = "*"
