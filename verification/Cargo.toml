[package]
name = "rusterpassword"
version = "0.1.0"
edition = "2021"
publish = false

[dependencies]
secstr = "*"
scrypt = { version = "*", default-features = false }
hmac = "*"
sha2 = "*"
libc = "*"
