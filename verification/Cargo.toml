[package]
name = "s3_listing"
version = "0.1.0"
edition = "2021"
publish = false

[dependencies]
xmltree = "*"
time = { version = "0.3", features = ["parsing"] }
thiserror = "*"
