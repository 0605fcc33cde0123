[package]
name = "blorg"
version = "0.1.0"
edition = "2021"
publish = false

[dependencies]
orgize = "0.10.0-alpha.1"
slugify = "0.1"
rss = { version = "2", features = ["validation"] }
css-minify = "*"
minify-html = "0.15"
walkdir = "2"
clap = { version = "4", features = ["derive", "env"] }
fern = "*"
humantime = "2"
log = "0.4"
chrono = "0.4"
