[package]
name = "vcs_toolkit"
version = "0.1.0"
edition = "2021"
publish = false

[dependencies]
gix-command = "=0.12.1"
gix-features = "=0.50.0"
gix-fs = "=0.24.1"
gix-glob = "=0.29.1"
gix-hash = { version = "=0.28.1", features = ["sha1"] }
gix-object = { version = "=0.66.1", features = ["sha1"] }
gix-url = "=0.40.1"
thiserror = "=2.0.21"
