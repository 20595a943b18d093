[package]
name = "toip"
version = "0.1.0"
edition = "2021"
publish = false

[dependencies]
directories = "*"
nix = { version = "*", features = ["user", "process"] }
oci-spec = "*"
anyhow = "*"
serde_json = "*"
