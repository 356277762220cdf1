[package]
name = "input_sequence"
version = "0.1.0"
edition = "2021"
publish = false

[dependencies]
trie-rs = "=0.4.2"
keyseq = "=0.7.0"
bevy = { version = "=0.17.3", default-features = false, features = ["std"] }
