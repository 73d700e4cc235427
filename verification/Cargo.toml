[package]
name = "n_player"
version = "0.1.0"
edition = "2021"
publish = false

[dependencies]
bitcode = "=0.6.9"
directories = "=6.0.0"
flume = "=0.12.0"
infer = "=0.22.0"
jni = "=0.21.1"
multitag = "=0.4.3"
n_audio = "=1.3.0"
num_cpus = "=1.17.0"
once_cell = "=1.21.4"
rand = "=0.8.8"
rimage = { version = "=0.12.3", default-features = false, features = ["resize", "webp"] }
tokio = { version = "=1.54.1", features = ["full"] }
zstd = "=0.14.3"
zune-core = "=0.5.1"
zune-image = "=0.5.0"
zune-imageprocs = "=0.5.1"
