[package]
name = "wireframe_scene"
version = "0.1.0"
edition = "2021"
publish = false

[dependencies]
bevy = { version = "=0.5.0", default-features = false }
# Never called. The derive macros of bevy 0.5 use items of syn that only its
# `full` feature has and do not ask for it; this macro crate does, which
# switches the feature on for them too.
darling_macro = "=0.10.2"
