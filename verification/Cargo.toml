[package]
name = "actor_sqlite"
version = "0.1.0"
edition = "2021"
publish = false

[dependencies]
flume = "=0.12.0"
oneshot = { version = "=0.2.1", features = ["std", "async"] }
rusqlite = { version = "=0.40.2", features = ["bundled"] }
smol_str = "=0.3.6"
thiserror = "=2.0.21"
