[package]
name = "ted_core"
version = "0.1.0"
edition = "2021"
publish = false

[dependencies]
ratatui = "*"
tui-textarea = "*"
tui-tree-widget = "*"
edtui = "*"
