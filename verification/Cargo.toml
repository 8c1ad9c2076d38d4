[package]
name = "gecko_core"
version = "0.1.0"
edition = "2021"
publish = false

[dependencies]
anyhow = "=1.0.104"
log = "=0.4.34"
mach2 = "=0.7.0"
nix = "=0.31.3"
thin-vec = "=0.2.21"
thiserror = "=2.0.21"
url = "=2.5.8"
urlpattern = "=0.6.0"
