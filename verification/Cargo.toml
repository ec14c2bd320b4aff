[package]
name = "zkbrownian"
version = "0.1.0"
edition = "2021"
publish = false

[dependencies]
ark-bls12-381 = "*"
ark-ec = "*"
ark-ff = "*"
ark-serialize = "*"
ark-std = "*"
rand = "0.8"
serde = { version = "1", features = ["derive"] }
