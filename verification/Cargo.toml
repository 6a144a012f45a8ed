[package]
name = "benchbot"
version = "0.1.0"
edition = "2021"
publish = false

[dependencies]
clap = "2"
influx_db_client = "*"
rayon = "*"
serde_json = "*"
bincode = "*"
buffett-core = "*"
buffett-crypto = "*"
buffett-metrics = "*"
buffett-timing = "*"
