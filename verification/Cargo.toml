[package]
name = "leptos-fluent-macros"
version = "0.1.0"
edition = "2021"
publish = false

[dependencies]
fluent-templates = "*"
fluent-syntax = "*"
pathdiff = "*"
proc-macro2 = "1"
quote = "1"
syn = { version = "2", features = ["full", "visit", "extra-traits", "parsing", "printing"] }
serde = { version = "1", features = ["derive"] }
serde_json = "1"
cfg-expr = { version = "*", features = ["targets"] }
current_platform = "*"
globwalk = "*"
walkdir = "2"
web-sys = { version = "0.3", features = ["Window", "Document", "Element", "Node", "HtmlInputElement", "HtmlHtmlElement"] }
js-sys = "0.3"
wasm-bindgen = "0.2"
wasm-bindgen-futures = "0.4"
