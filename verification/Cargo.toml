[package]
name = "sync_sqlite"
version = "0.1.0"
edition = "2021"
publish = false

[dependencies]
rusqlite = "*"
thread_local = "1"
