[package]
name = "spectrogram"
version = "0.1.0"
edition = "2021"
publish = false

[dependencies]
apodize = "*"
fftw = "*"
num-complex = "*"
core-foundation = "*"
core-foundation-sys = "*"
