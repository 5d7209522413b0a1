[package]
name = "cxl_discovery"
version = "0.1.0"
edition = "2021"
publish = false

[dependencies]
bit_field = "*"
log = "*"
pci_types = "*"
spin = "*"
