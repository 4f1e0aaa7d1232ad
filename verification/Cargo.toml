[package]
name = "git-hubsync"
version = "0.1.0"
edition = "2021"
publish = false

[dependencies]
colored = "=3.1.1"
git2 = { version = "=0.21.0", features = ["https", "ssh"] }
git2_credentials = "=0.16.0"

[dev-dependencies]
tempfile = "=3.27.0"
