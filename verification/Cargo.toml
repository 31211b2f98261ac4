[package]
name = "hdf5_filters"
version = "0.1.0"
edition = "2021"
publish = false

[dependencies]
libc = "*"
libloading = "*"
parking_lot = "*"
zfp-sys = "*"
