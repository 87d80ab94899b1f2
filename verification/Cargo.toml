[package]
name = "switchpresence"
version = "0.1.0"
edition = "2021"
publish = false

[dependencies]
discord-rich-presence = "0.2"
discord-rpc-client = "*"
open = "3"
