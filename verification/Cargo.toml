[package]
name = "extism_py"
version = "0.1.0"
edition = "2021"
publish = false

[dependencies]
anyhow = "1"
directories = "*"
env_logger = "*"
extism-pdk = "1"
log = "0.4"
pyo3 = "0.22"
rustpython-parser = "*"
structopt = "0.3"
tempfile = "3"
wagen = "*"
wizer = { version = "*", default-features = false }
