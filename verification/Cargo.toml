[package]
name = "wh_net"
version = "0.1.0"
edition = "2021"
publish = false

[dependencies]
bevy_renet = "*"
