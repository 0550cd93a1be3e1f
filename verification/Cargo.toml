[package]
name = "aa_proxy"
version = "0.1.0"
edition = "2021"
publish = false

[dependencies]
kobject-uevent = "*"
netlink-sys = "*"
netlink-packet-core = "*"
tokio = { version = "1", features = ["rt-multi-thread", "net", "time", "sync", "io-util", "macros", "process", "fs"] }
clap = { version = "4", features = ["derive"] }
serde = { version = "1", features = ["derive"] }
serde_json = "1"
toml_edit = "*"
log = "*"
simplelog = "*"
shell-words = "*"
nix = { version = "*", features = ["signal", "process"] }
simple_config_parser = "*"
mac_address = "*"
netif = "*"
