[package]
name = "obj_scene"
version = "0.1.0"
edition = "2021"
publish = false

[dependencies]
tobj = { version = "3", default-features = false }
