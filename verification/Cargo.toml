[package]
name = "zsh_prompt"
version = "0.1.0"
edition = "2021"
publish = false

[dependencies]
nix = { version = "*", features = ["signal", "user"] }
chrono = "*"
libc = "*"
once_cell = "*"
smallvec = "*"
