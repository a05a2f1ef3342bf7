[package]
name = "panes"
version = "0.1.0"
edition = "2021"
publish = false

[dependencies]
wasm-bindgen = "*"
web-sys = { version = "*", features = ["Window", "Document", "Element", "HtmlElement", "HtmlHeadElement", "HtmlScriptElement", "Node", "CssStyleDeclaration", "DomTokenList", "console"] }
