[package]
name = "rustsbi_k210"
version = "0.1.0"
edition = "2021"
publish = false

[dependencies]
riscv = "=0.6.0"
rustsbi = "=0.1.1"
k210-hal = "=0.2.0"
embedded-hal = "=0.2.7"
spin = "=0.7.2"
lazy_static = { version = "=1.5.1", features = ["spin_no_std"] }
linked_list_allocator = "=0.10.6"
r0 = "=1.0.0"
