//! Verified core of a wikitext-dump-to-HTML converter.
//!
//! The crate has two independent components: a namespace classifier, which
//! decides whether a page is real content or meta/file material, and a
//! node-tree renderer, which turns a parsed wikitext node tree into an HTML
//! fragment.  Decoding dump files, parsing wikitext and writing output files
//! are left to the surrounding application.

pub mod namespace;
pub mod node;
pub mod render;
pub mod laws;
