[package]
name = "naga_wgsl"
version = "0.1.0"
edition = "2021"
publish = false

[dependencies]
codespan-reporting = { version = "0.12", features = ["termcolor"] }
termcolor = "1"
cfg-if = "1"
thiserror = "2"
diff = "0.1"
