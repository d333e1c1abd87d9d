[package]
name = "fuente_state"
version = "0.1.0"
edition = "2021"
publish = false

[dependencies]
nostro2 = "*"
serde_json = "1"
yew = "*"
