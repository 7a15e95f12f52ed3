[package]
name = "devkit"
version = "0.1.0"
edition = "2021"
publish = false

[dependencies]
uuid = { version = "=1.29.0", features = ["v4"] }
linked_list_allocator = "=0.10.6"
paste = "=1.0.15"
riscv = "=0.16.1"
stack-string = "*"
