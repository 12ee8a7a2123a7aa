[package]
name = "remotia_ffmpeg_codecs"
version = "0.1.0"
edition = "2021"
publish = false

[dependencies]
async-trait = "*"
bytes = "*"
cstr = "*"
log = "*"
remotia = "*"
rsmpeg = "*"
tokio = { version = "*", features = ["sync", "macros"] }
