[package]
name = "ntrade_advance"
version = "0.1.0"
edition = "2021"
publish = false

[dependencies]
crossterm = "*"
dirs = "*"
pkmn-savedata = "*"
thiserror = "*"
