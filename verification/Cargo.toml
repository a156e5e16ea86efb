[package]
name = "speech_capture"
version = "0.1.0"
edition = "2021"
publish = false

[dependencies]
audrey = "0.3"
base64 = "=0.9.3"
clap = "=2.34.0"
cpal = "=0.8.2"
file = "=0.1.1"
hound = "=3.5.1"
restson = "=0.4.1"
rodio = "=0.7.0"
serde = "=1.0.229"
serde_derive = "=1.0.229"
serde_json = "=1.0.154"
tempfile = "=3.27.0"
