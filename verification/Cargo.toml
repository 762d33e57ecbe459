[package]
name = "ore_miner_core"
version = "0.1.0"
edition = "2021"
publish = false

[dependencies]
drillx = "2"
rand = "0.8"
