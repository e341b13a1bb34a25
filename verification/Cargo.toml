[package]
name = "buds_link"
version = "0.1.0"
edition = "2021"
publish = false

[dependencies]
galaxy_buds_rs = "=0.2.11"
bluer = { version = "=0.17.4", features = ["bluetoothd", "rfcomm"] }
# bluer's own dependency, named only to build libdbus from source where
# the system has no development files for it.
dbus = { version = "=0.9.12", features = ["vendored"] }
tokio = { version = "=1.54.1", features = ["rt-multi-thread", "io-util", "sync", "macros"] }
futures = "=0.3.34"
tracing = "=0.1.44"
tracing-subscriber = { version = "=0.3.23", features = ["env-filter"] }
