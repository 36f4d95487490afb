[package]
name = "axcli"
version = "0.1.0"
edition = "2021"
publish = false

[dependencies]
memory_addr = "=0.4.1"
goblin = "=0.10.7"
linux-loader = "=0.14.0"
vm-allocator = "=0.1.4"
vm-memory = { version = "=0.18.0", features = ["backend-mmap", "backend-bitmap"] }
kvm-bindings = "=0.14.2"
clap = { version = "=4.6.7", features = ["derive"] }
serde = { version = "=1.0.229", features = ["derive"] }
serde_json = "=1.0.154"
libc = "=0.2.191"
log = "=0.4.35"
env_logger = "=0.11.11"
axerrno = "=0.2.2"
thiserror = "=2.0.21"
displaydoc = "=0.2.7"
xmas-elf = "=0.10.0"
bitvec = "=1.1.1"
lazyinit = "=0.2.2"
sc = "=0.2.7"
linux-libc-auxv = "=0.3.0"
page_table_multiarch = "=0.6.2"
axhvc = "*"
