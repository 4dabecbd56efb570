[package]
name = "path_marcher"
version = "0.1.0"
edition = "2021"
publish = false

[dependencies]
argparse = "0.2"
hound = "3"
image = { version = "*", default-features = false, features = ["png"] }
ocl = "*"
ron = "*"
serde = { version = "1", features = ["derive"] }
