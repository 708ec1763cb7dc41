[package]
name = "node_cluster"
version = "0.1.0"
edition = "2021"
publish = false

[dependencies]
protobuf = "2"
raft = "0.7"
tempfile = "3"
