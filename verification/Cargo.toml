[package]
name = "jaq_lower"
version = "0.1.0"
edition = "2021"
publish = false

[dependencies]
jaq-parse = "=1.0.3"
jaq-syn = "=1.6.0"
