[package]
name = "wasi-tests-toml"
version = "0.1.0"
edition = "2021"
publish = false

[dependencies]
toml = "=0.5.11"
wasmparser = "=0.262.0"
wasi = "=0.11.1"
wasmtime = "=46.0.3"
wasmtime-wasi = "=46.0.3"
tempfile = "=3.27.0"
libtest-mimic = "=0.8.2"
