[package]
name = "arrow_grid"
version = "0.1.0"
edition = "2021"
publish = false

[dependencies]
deranged = { version = "0.3", default-features = false }
hound = "*"
log = "0.4"
mgba_log = "*"
nocash_gba_log = "*"
rand = { version = "0.8", default-features = false }
rand_core = { version = "0.6", default-features = false }
serde = { version = "1", features = ["derive"] }
serde_args = "*"
