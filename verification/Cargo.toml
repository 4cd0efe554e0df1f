[package]
name = "uefi_test_runner"
version = "0.1.0"
edition = "2021"
publish = false

[dependencies]
log = "*"
qemu-exit = "*"
uefi = { version = "*", default-features = false, features = ["alloc", "logger"] }
x86_64 = "*"
