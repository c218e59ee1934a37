[package]
name = "media_organizer"
version = "0.1.0"
edition = "2021"
publish = false

[dependencies]
kamadak-exif = "=0.6.1"
id3 = "=1.17.2"
faccess = "=0.2.4"
chrono = "=0.4.45"
glob = "=0.3.4"
mkdirp = "=1.0.0"
log = "=0.4.34"
clap = { version = "=4.6.7", features = ["derive"] }
structured-logger = "=1.0.5"
