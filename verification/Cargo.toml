[package]
name = "shownote"
version = "0.1.0"
edition = "2021"
publish = false

[dependencies]
crossterm = "*"
opml = "*"
ratatui = "*"
reqwest = { version = "*", features = ["blocking"] }
rss = "*"
select = "*"
webbrowser = "*"
