[package]
name = "repo_metadata"
version = "0.1.0"
edition = "2021"
publish = false

[dependencies]
dirs = "5"
futures = "0.3"
async-fs = "2"
async-io = "2"
