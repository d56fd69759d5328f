[package]
name = "lakehouse"
version = "0.1.0"
edition = "2021"
publish = false

[dependencies]
url = "*"
opendal = { version = "*", features = ["services-s3", "services-azdls", "services-fs"] }
object_store_opendal = "*"
clap = { version = "*", features = ["derive", "env"] }
