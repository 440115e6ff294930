[package]
name = "cheetah"
version = "0.1.0"
edition = "2021"
publish = false

[dependencies]
xmltree = "=0.10.3"
format_money = "=0.1.1"
ureq = "2"
tinyfiledialogs = "3"
web-view = "0.7"
