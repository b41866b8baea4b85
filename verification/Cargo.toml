[package]
name = "plugin_editors"
version = "0.1.0"
edition = "2021"
publish = false

[dependencies]
crossbeam = "=0.8.5"
serde = { version = "=1.0.229", features = ["derive"] }
atomic_float = "=1.1.0"
triple_buffer = "=9.0.0"
nih_plug_egui = "=0.1.2"
nih_plug_core = "=0.1.2"
egui = { version = "=0.34.3", default-features = false }
