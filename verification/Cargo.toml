[package]
name = "compile_time_create_file"
version = "0.1.0"
edition = "2021"
publish = false

[dependencies]
proc-macro2 = "*"
syn = "*"
