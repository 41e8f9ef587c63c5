[package]
name = "exprimo"
version = "0.1.0"
edition = "2021"
publish = false

[dependencies]
rslint_parser = "=0.3.1"
rslint_rowan = "=0.10.0"
rustc_apfloat = "=0.2.3"
serde_json = "=1.0.151"
