[package]
name = "dexompiler"
version = "0.1.0"
edition = "2021"
publish = false

[dependencies]
axmldecoder = "*"
bitcode = { version = "*", features = ["derive"] }
clap = { version = "*", features = ["derive"] }
dex = "*"
indicatif = { version = "*", features = ["rayon"] }
log = "*"
num_cpus = "*"
rayon = "*"
regex = "*"
serde = { version = "*", features = ["derive"] }
serde_json = "*"
thiserror = "*"
zip = { version = "*", default-features = false, features = ["deflate"] }
