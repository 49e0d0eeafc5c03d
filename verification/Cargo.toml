[package]
name = "rng"
version = "0.1.0"
edition = "2021"
publish = false

[dependencies]
crossbeam-channel = "0.5"
num_cpus = "1"
rand = "0.8"
rand_chacha = "0.3"
rand_hc = "0.3"
rand_pcg = "0.3"
rand_xorshift = "0.3"
simple-signal = "1"
structopt = "0.3"

[dev-dependencies]
threadpool = "1"
