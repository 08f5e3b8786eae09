[package]
name = "deflaters"
version = "0.1.0"
edition = "2021"
publish = false

[dependencies]
libdeflater = "*"
simd-adler32 = "*"
zopfli = "*"

[dev-dependencies]
miniz_oxide = "*"
