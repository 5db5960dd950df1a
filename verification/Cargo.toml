[package]
name = "vmm"
version = "0.1.0"
edition = "2021"
publish = false

[dependencies]
epoll = "*"
libc = "*"
vmm-sys-util = "*"
kvm-bindings = "*"
kvm-ioctls = "*"
vm-memory = { version = "*", features = ["backend-mmap"] }
linux-loader = { version = "*", features = ["elf"] }
