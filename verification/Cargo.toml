[package]
name = "youtube_no_si_redux"
version = "0.1.0"
edition = "2021"
publish = false

[dependencies]
url = "=2.5.8"
dotenvy = "=0.15.7"
anyhow = "=1.0.104"
thiserror = "=2.0.21"
futures = "=0.3.34"
dptree = "=0.5.1"
tokio = { version = "=1.54.1", features = ["macros", "rt-multi-thread", "signal", "time"] }
tracing = "=0.1.44"
tracing-subscriber = { version = "=0.3.23", features = ["env-filter"] }
teloxide = { version = "=0.17.0", default-features = false, features = ["ctrlc_handler", "rustls"] }
# Not used by name: teloxide-core asks for takecell 0.1, and 0.1.2 needs a
# newer compiler than the one this crate is built with.
takecell = "=0.1.1"
