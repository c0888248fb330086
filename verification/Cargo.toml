[package]
name = "box_fit"
version = "0.1.0"
edition = "2021"
publish = false

[dependencies]
bevy = { version = "=0.5.0", default-features = false, features = ["render"] }
# The procedural macros of bevy 0.5 need the `full` feature of syn and do not
# ask for it themselves. darling_macro asks for it; nothing else is used of it.
darling_macro = "=0.10.2"
