[package]
name = "simple_git"
version = "0.1.0"
edition = "2021"
publish = false

[dependencies]
git2 = { version = "*", default-features = false, features = ["vendored-libgit2"] }
chrono = { version = "*", default-features = false }
once_cell = "*"
dirs = "*"
