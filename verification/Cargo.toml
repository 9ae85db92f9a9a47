[package]
name = "tokamak_netcdf"
version = "0.1.0"
edition = "2021"
publish = false

[dependencies]
ndarray = "*"
netcdf = { version = "*", features = ["ndarray"] }
thiserror = "*"
