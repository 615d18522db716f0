[package]
name = "jupiter_lend"
version = "0.1.0"
edition = "2021"
publish = false

[dependencies]
anchor-lang = "0.31.1"
bytemuck = { version = "1", features = ["derive", "min_const_generics"] }
