[package]
name = "neocolor"
version = "0.1.0"
edition = "2021"
publish = false

[dependencies]
regex = "1"
nvim-oxi = { version = "0.6", features = ["neovim-0-10"] }
ignore = "0.4"
once_cell = "1"
