[package]
name = "ui_shell"
version = "0.1.0"
edition = "2021"
publish = false

[dependencies]
const_format = "0.2"
gtk4 = "0.7"
native-dialog = "0.7"
