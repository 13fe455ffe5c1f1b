[package]
name = "coding_agent"
version = "0.1.0"
edition = "2021"
publish = false

[dependencies]
quick-xml = "=0.42.0"
unicode-width = "=0.2.3"
serde_json = "=1.0.154"
regex = "=1.13.1"
glob = "=0.3.4"
walkdir = "=2.5.0"
path-clean = "=1.0.1"
log = "=0.4.35"
base64 = "=0.23.1"
lopdf = { version = "=0.31.0", default-features = false, features = ["nom_parser", "chrono_time"] }
pulldown-cmark = { version = "=0.13.6", default-features = false }
html2md = "=0.2.17"
textwrap = "=0.16.4"
chrono = "=0.4.45"
anyhow = "=1.0.104"
serde = { version = "=1.0.229", features = ["derive"] }
ratatui = "=0.30.2"
crossterm = "=0.29.0"
tui-textarea = "=0.6.1"
tokio = { version = "=1.54.1", features = ["full"] }
futures = "=0.3.34"
reqwest = { version = "=0.13.5", default-features = false, features = ["json"] }
rustyline = "=19.0.0"
arboard = "=3.7.0"
