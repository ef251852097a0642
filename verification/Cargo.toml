[package]
name = "brace_designer"
version = "0.1.0"
edition = "2021"
publish = false
