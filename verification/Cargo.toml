[package]
name = "llvm_wrap"
version = "0.1.0"
edition = "2021"
publish = false

[dependencies]
llvm-sys = { version = "180", default-features = false, features = ["no-llvm-linking", "disable-alltargets-init"] }
