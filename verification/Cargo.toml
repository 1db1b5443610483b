[package]
name = "atuin_ctx"
version = "0.1.0"
edition = "2021"
publish = false

[dependencies]
futures = "=0.3.34"
gix = "=0.80.0"
# Not used directly: gix 0.80 reaches it through gix-attributes, and its newest
# patch needs a newer rustc than this toolchain, so the version is held here.
kstring = "=2.0.2"
thiserror = "=2.0.21"
tokio = { version = "=1.54.1", features = ["rt", "rt-multi-thread", "sync"] }
