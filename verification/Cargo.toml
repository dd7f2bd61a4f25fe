[package]
name = "ecma_module_view"
version = "0.1.0"
edition = "2021"
publish = false

[dependencies]
arcstr = "=1.2.0"
glob-match = "=0.2.1"
oxc = { version = "0.36", features = ["semantic"] }
regex = "=1.13.1"
sugar_path = "=1.2.1"
