[package]
name = "axdevice"
version = "0.1.0"
edition = "2021"
publish = false

[dependencies]
arrayvec = "*"
axaddrspace = "*"
axdevice_base = "*"
axdriver_block = "*"
axerrno = "*"
axplat = "*"
axvirtio-blk = "*"
axvirtio-common = "*"
axvmconfig = "*"
log = "*"
spin = "*"
timer_list = "*"
