[package]
name = "heinzelmann"
version = "0.1.0"
edition = "2021"
publish = false

[dependencies]
bt_bencode = "*"
bytes = "1"
chrono = "0.4"
hex = "0.4"
md5 = "*"
rand = "0.8"
rumqttc = "*"
serde = { version = "1", features = ["derive"] }
steel-core = "*"
steel-derive = "*"
timer = "0.2"
