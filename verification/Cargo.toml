[package]
name = "ftoc"
version = "0.1.0"
edition = "2021"
publish = false

[dependencies]
ascii85 = "*"
clipboard-win = "*"
