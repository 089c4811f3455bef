[package]
name = "moonzoon"
version = "0.1.0"
edition = "2021"
publish = false

[dependencies]
actix-files = "*"
actix-http = "*"
actix-web = { version = "*", default-features = false, features = ["macros"] }
anyhow = "*"
bool_ext = "*"
const_format = "*"
dominator = "*"
fehler = "*"
flate2 = "*"
futures-signals = "*"
mime_guess = "*"
parking_lot = "*"
proc-macro2 = "*"
quote = "*"
rcgen = "*"
serde = { version = "*", features = ["derive"] }
syn = { version = "*", features = ["full"] }
tar = "*"
tokio = { version = "*", features = ["fs", "macros", "process", "rt", "rt-multi-thread", "sync", "time"] }
tokio-stream = "*"
trait-set = "*"
uuid = { version = "*", features = ["v4"] }
web-sys = { version = "*", features = ["HtmlElement", "HtmlImageElement"] }
