[package]
name = "imgroll"
version = "0.1.0"
edition = "2021"
publish = false

[dependencies]
image = { version = "=0.23.14", default-features = false, features = ["jpeg", "png"] }
color-thief = "=0.2.2"
tiny-keccak = { version = "=2.0.2", features = ["parallel_hash"] }
hex = "=0.4.3"
slug = "=0.1.6"
base64 = "=0.13.1"
exoquant = "=0.2.0"
lodepng = "=3.12.2"
zopfli = "=0.4.0"
mozjpeg = "=0.9.8"
og-libwebp-sys = "=0.1.2"
rexiv2 = "=0.9.1"
libc = "0.2"
rayon = "1"
rgb = { version = "0.8", features = ["serde"] }
num-rational = { version = "0.3", features = ["serde"] }
serde = { version = "1", features = ["derive"] }
serde_json = "1"
snafu = "0.6"
aws_lambda_events = "=1.2.1"
lambda_runtime = "*"
log = "0.4"
simple_logger = "=5.2.0"
reqwest = "=0.12.4"
rusoto_core = "=0.48.0"
rusoto_s3 = "=0.48.0"
rusoto_signature = "=0.48.0"
tokio = { version = "=1.54.1", features = ["macros", "rt-multi-thread"] }
