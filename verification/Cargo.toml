[package]
name = "ncmpwn"
version = "0.1.0"
edition = "2021"
publish = false

[dependencies]
audiotags = "*"
base64 = "0.22"
clap = { version = "4", features = ["derive"] }
gloo-file = "0.2"
id3 = "1"
image = { version = "0.25", default-features = false }
js-sys = "0.3"
log = "0.4"
material-yew = { version = "*", features = ["full"] }
metaflac = "0.2"
pretty_env_logger = "0.5"
thiserror = "1"
uuid = { version = "1", features = ["v4"] }
wasm-logger = "0.2"
web-sys = { version = "0.3", features = ["Event", "EventTarget", "File", "FileList", "HtmlInputElement"] }
yew = { version = "0.20", features = ["csr"] }
