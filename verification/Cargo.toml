[package]
name = "daq_recorder"
version = "0.1.0"
edition = "2021"
publish = false

[dependencies]
anyhow = "*"
chrono = "*"
hdf5 = "*"

[dev-dependencies]
byteorder = "*"
