[package]
name = "mabel"
version = "0.1.0"
edition = "2021"
publish = false

[dependencies]
unicode-segmentation = "1"
unicode-xid = "0.2"
serde_json = "1"
termcolor = "1"
codespan-reporting = "0.11"
clap = { version = "4", features = ["cargo", "string"] }
chrono = { version = "0.4", features = ["unstable-locales"] }
fluent-templates = "*"
sys-locale = "0.3"
unic-langid = { version = "0.9", features = ["macros"] }
url = "2"
