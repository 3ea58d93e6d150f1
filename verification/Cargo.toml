[package]
name = "ipp_sharing"
version = "0.1.0"
edition = "2021"
publish = false

[dependencies]
anyhow = "*"
bimap = "*"
blocking = "*"
clap = { version = "*", features = ["derive"] }
flexi_logger = "*"
futures = "*"
gethostname = "*"
hyper = "*"
ipp = "*"
ippper = "*"
log = "*"
print_raster = "*"
serde = { version = "*", features = ["derive"] }
serde_yml = "*"
tiff = "*"
tokio = { version = "*", features = ["rt-multi-thread", "sync", "fs", "io-util", "net", "time", "macros"] }
tokio-util = { version = "*", features = ["compat"] }
uuid = { version = "*", features = ["v4"] }
winprint = "*"
zeroconf = "*"
