[package]
name = "vmm_ivc"
version = "0.1.0"
edition = "2021"

[dependencies]
axaddrspace = "=0.6.0"
axerrno = "=0.2.2"
axvm-types = "=0.7.6"
bitmaps = "=3.2.1"
cpumask = "=0.1.0"
memory_addr = "=0.4.1"

[dev-dependencies]
axhvc = "=0.4.13"
