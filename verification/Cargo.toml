[package]
name = "ftth_rtnl"
version = "0.1.0"
edition = "2021"
publish = false

[dependencies]
tokio = { version = "*", features = ["sync", "rt-multi-thread"] }
rtnetlink = "*"
netlink-packet-route = "*"
netlink-packet-core = "*"
futures = "*"
