[package]
name = "blitz"
version = "0.1.0"
edition = "2021"
publish = false

[dependencies]
anyrender = "=0.6.2"
anyrender_vello_cpu = "0.8"
blitz-dom = "=0.2.4"
blitz-html = "=0.2.0"
blitz-paint = "=0.2.1"
blitz-traits = "=0.2.0"
data-url = "=0.3.2"
peniko = "=0.5.0"
png = "=0.18.1"
pulldown-cmark = { version = "=0.13.6", default-features = false, features = ["html"] }
reqwest = { version = "=0.13.5", default-features = false, features = ["rustls-no-provider", "charset", "http2"] }
rustls = { version = "=0.23.46", default-features = false, features = ["ring", "std", "tls12"] }
tokio = { version = "=1.54.1", features = ["rt-multi-thread", "net", "time", "sync"] }
tracing-subscriber = { version = "=0.3.23", default-features = false, features = ["fmt"] }
url = "=2.5.8"
