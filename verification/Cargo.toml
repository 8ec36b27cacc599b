[package]
name = "unixfs_car"
version = "0.1.0"
edition = "2021"
publish = false

[dependencies]
cid = "=0.7.0"
multihash = "=0.14.0"
quick-protobuf = "=0.8.1"
unixfs-v1 = "=0.2.1"
