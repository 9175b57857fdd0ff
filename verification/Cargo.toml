[package]
name = "open_entry_plugin"
version = "0.1.0"
edition = "2021"
publish = false

[dependencies]
open-entry-bindings = "*"
