[package]
name = "rog_core"
version = "0.1.0"
edition = "2021"
publish = false

[dependencies]
log = "0.4"
serde = "1"
serde_derive = "1"
sysfs-class = "0.1"
zvariant = "*"
zvariant_derive = "*"
