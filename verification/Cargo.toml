[package]
name = "nl_dump"
version = "0.1.0"
edition = "2021"
publish = false

[dependencies]
byteorder = "1"
env_logger = "*"
getopts = "0.2"
log = "0.4"
pcap = "*"
regex = "1"
