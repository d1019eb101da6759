//! Classification of pages by their numeric namespace code.
//!
//! The classifier is a deny-list: a fixed, finite set of codes marks a page
//! as meta material (talk pages, user pages, templates, ...) or as a file
//! description page; every other code, including the article namespace 0,
//! counts as ordinary content.  Only content pages are rendered.

use vstd::prelude::*;

verus! {

/// The class of a page, derived from its namespace code alone.
#[derive(Clone, Copy, Debug, PartialEq, Eq, Structural)]
pub enum NamespaceClass {
    /// An ordinary content article; the page is rendered.
    Content,
    /// Meta material such as talk, user or template pages; excluded.
    Meta,
    /// A file description page; excluded.
    FileNamespace,
}

/// The namespace codes that mark a page as meta material: talk (1),
/// user (2), user-talk (3), media-wiki (8), template (10), category (14),
/// category-talk (15), user-blog-comment (501), blog (502),
/// message-wall (1200), thread (1201), message-wall-greeting (1202) and
/// board (2000).
pub open spec fn meta_codes() -> Set<u32> {
    set![1u32, 2u32, 3u32, 8u32, 10u32, 14u32, 15u32, 501u32, 502u32, 1200u32, 1201u32, 1202u32, 2000u32]
}

/// The namespace code of file description pages.
pub open spec fn file_code() -> u32 {
    6u32
}

/// What `classify` returns for each namespace code.
pub open spec fn classify_spec(namespace: u32) -> NamespaceClass {
    if meta_codes().contains(namespace) {
        NamespaceClass::Meta
    } else if namespace == file_code() {
        NamespaceClass::FileNamespace
    } else {
        NamespaceClass::Content
    }
}

/// Maps a namespace code to its class.  Total: every code not in the finite
/// meta set and different from the file code is `Content` by default.
pub fn classify(namespace: u32) -> (class: NamespaceClass)
    ensures
        class == classify_spec(namespace),
        class == NamespaceClass::Meta <==> meta_codes().contains(namespace),
        class == NamespaceClass::FileNamespace <==> namespace == file_code(),
        class == NamespaceClass::Content <==> (!meta_codes().contains(namespace)
            && namespace != file_code()),
{
    match namespace {
        1 | 2 | 3 | 8 | 10 | 14 | 15 | 501 | 502 | 1200 | 1201 | 1202 | 2000 => {
            NamespaceClass::Meta
        },
        6 => NamespaceClass::FileNamespace,
        _ => NamespaceClass::Content,
    }
}

/// Whether a page with this namespace code is admitted to rendering:
/// exactly the content pages are.
pub fn should_render(namespace: u32) -> (admitted: bool)
    ensures
        admitted <==> classify_spec(namespace) == NamespaceClass::Content,
{
    let class = classify(namespace);
    matches!(class, NamespaceClass::Content)
}

} // verus!
