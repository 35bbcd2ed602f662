[package]
name = "gnome_class_gen"
version = "0.1.0"
edition = "2021"
publish = false

[dependencies]
quote = "0.3"
lalrpop-intern = "0.13"
