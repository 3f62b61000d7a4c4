[package]
name = "blackhole_ray_marching"
version = "0.1.0"
edition = "2021"
publish = false

[dependencies]
rand = "0.9"
rand_pcg = "0.9"
rayon = "1"
