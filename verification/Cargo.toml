[package]
name = "javy_plugin_kubewarden"
version = "0.1.0"
edition = "2021"
publish = false

[dependencies]
javy-plugin-api = "*"
wit-bindgen = "*"
