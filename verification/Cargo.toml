[package]
name = "springtime_lua"
version = "0.1.0"
edition = "2021"
publish = false

[dependencies]
nvim-oxi = { version = "=0.5.1", features = ["mlua", "neovim-0-9", "__vendored_luajit"] }
