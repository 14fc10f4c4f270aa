[package]
name = "cpu_affinity"
version = "0.1.0"
edition = "2021"
publish = false

[dependencies]
num_cpus = "=1.17.0"
toml_edit = "=0.25.16"
windows = { version = "=0.58.0", features = ["Win32_Foundation", "Win32_System_Threading"] }
