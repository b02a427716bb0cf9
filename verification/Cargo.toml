[package]
name = "remote_sync"
version = "0.1.0"
edition = "2021"
publish = false

[dependencies]
async-process = "*"
git2 = "*"
structopt = "*"
tempdir = "*"
