[package]
name = "libcamera_core"
version = "0.1.0"
edition = "2021"
publish = false

[dependencies]
semver = "*"
yaml-rust = "*"
prettyplease = "*"
syn = { version = "*", features = ["full"] }
git2 = { version = "*", default-features = false, features = ["vendored-libgit2"] }
