[package]
name = "cxx_qt_gen"
version = "0.1.0"
edition = "2021"
publish = false

[dependencies]
clang-format = "=0.1.3"
convert_case = "0.6"
proc-macro2 = { version = "=1.0.107", features = ["span-locations"] }
syn = { version = "=1.0.109", features = ["full"] }
