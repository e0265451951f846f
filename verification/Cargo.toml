[package]
name = "vrm_layer_mate"
version = "0.1.0"
edition = "2021"
publish = false

[dependencies]
cgmath = "*"
glium = "*"
gltf = "*"
gtk4 = "*"
gtk4-layer-shell = "*"
libloading = "*"
