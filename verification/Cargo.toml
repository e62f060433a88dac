[package]
name = "polarity"
version = "0.1.0"
edition = "2021"
publish = false

[dependencies]
num-bigint = "*"
clap = "*"
codespan = "*"
lalrpop-util = { version = "*", features = ["lexer"] }
miette = "*"
thiserror = "*"
tower-lsp = "*"
url = "*"
