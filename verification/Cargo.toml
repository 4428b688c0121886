[package]
name = "remote_desktop"
version = "0.1.0"
edition = "2021"
publish = false

[dependencies]
enumflags2 = { version = "=0.7.12", features = ["serde"] }
futures-util = "0.3"
serde = { version = "=1.0.229", features = ["derive"] }
serde_repr = "=0.1.21"
zbus = "=5.19.0"
zvariant = { version = "=5.15.1", features = ["enumflags2"] }
zvariant_derive = "=5.15.1"
