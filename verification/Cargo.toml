[package]
name = "file_dialog"
version = "0.1.0"
edition = "2021"

[dependencies]
directories = "*"
egui = "*"
sysinfo = "*"
