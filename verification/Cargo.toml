[package]
name = "wkhtmltopdf_cluster"
version = "0.1.0"
edition = "2021"
publish = false

[dependencies]
serde_json = "1"
url = "2"
zmq = "*"
wkhtmltopdf = "*"
sysinfo = "*"
clap = "*"
ctrlc = "3"
