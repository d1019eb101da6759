[package]
name = "wiki_dump_to_html"
version = "0.1.0"
edition = "2021"
publish = false

[dependencies]
parse_wiki_text = "*"
parse_mediawiki_dump = "*"
