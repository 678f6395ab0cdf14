[package]
name = "pyc"
version = "0.1.0"
edition = "2021"
publish = false

[dependencies]
subprocess = "=0.2.15"
nix = { version = "=0.31.3", features = ["signal", "fs"] }
getopts = "=0.2.24"
dirs = "=7.0.0"
termion = "=4.0.6"
ctrlc = "=3.5.2"
ansi_term = "=0.12.1"
sysinfo = "=0.39.6"
