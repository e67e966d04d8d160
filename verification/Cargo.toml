[package]
name = "app_bundler"
version = "0.1.0"
edition = "2021"
publish = false

[dependencies]
cc = "1"
chrono = "0.4"
clap = { version = "3.2", features = ["derive"] }
fs_extra = "1"
git_info = "0.1"
mach_object = "0.1"
memmap = "0.7"
mustache = "0.9"
ndk-build = "*"
rustc_version = "0.4"
serde = { version = "1", features = ["derive"] }
serde_json = "1"
user-error = "1"
which = "4"
