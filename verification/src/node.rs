//! The node-tree data model consumed by the renderer.
//!
//! A page's wikitext is parsed (outside this crate) into a sequence of
//! nodes.  Each node records the span of the original page text it was
//! parsed from, as a pair of character indices; nodes with structure carry
//! their child nodes.  Every node kind without bespoke rendering is folded
//! into the catch-all [`Node::Other`], which the renderer reproduces
//! verbatim from its span.

use vstd::prelude::*;

verus! {

/// One item of an ordered or unordered list, holding its own child nodes.
pub struct ListItem {
    /// The content of the item.
    pub nodes: Vec<Node>,
}

/// One syntactic element of wikitext.
///
/// `start` and `end` are character indices into the original page text;
/// `start <= end <= text.len()` must hold for the tree to be well formed
/// (see [`node_wf`]).
pub enum Node {
    /// A preformatted block; its children are rendered inside `<pre>`.
    Preformatted { start: usize, end: usize, children: Vec<Node> },
    /// A heading of wikitext level 1 to 6.
    Heading { start: usize, end: usize, level: u8, children: Vec<Node> },
    /// A horizontal rule.
    HorizontalDivider { start: usize, end: usize },
    /// A bold toggle; a pure delimiter without children.
    Bold { start: usize, end: usize },
    /// A bold-italic toggle; a pure delimiter without children.
    BoldItalic { start: usize, end: usize },
    /// An italic toggle; a pure delimiter without children.
    Italic { start: usize, end: usize },
    /// A generic tag container; `syntaxhighlight` tags are rendered as
    /// verbatim `<pre>` blocks, any other tag is reproduced from its span.
    Tag { start: usize, end: usize, name: String, children: Vec<Node> },
    /// An ordered list.
    OrderedList { start: usize, end: usize, items: Vec<ListItem> },
    /// An unordered list.
    UnorderedList { start: usize, end: usize, items: Vec<ListItem> },
    /// A category marker; metadata, suppressed entirely by the renderer.
    Category { start: usize, end: usize },
    /// Any node kind without bespoke rendering; reproduced verbatim from
    /// its span.
    Other { start: usize, end: usize },
}

/// The character index where a node's span starts.
pub open spec fn spec_start(n: Node) -> usize {
    match n {
        Node::Preformatted { start, .. } => start,
        Node::Heading { start, .. } => start,
        Node::HorizontalDivider { start, .. } => start,
        Node::Bold { start, .. } => start,
        Node::BoldItalic { start, .. } => start,
        Node::Italic { start, .. } => start,
        Node::Tag { start, .. } => start,
        Node::OrderedList { start, .. } => start,
        Node::UnorderedList { start, .. } => start,
        Node::Category { start, .. } => start,
        Node::Other { start, .. } => start,
    }
}

/// The character index where a node's span ends.
pub open spec fn spec_end(n: Node) -> usize {
    match n {
        Node::Preformatted { end, .. } => end,
        Node::Heading { end, .. } => end,
        Node::HorizontalDivider { end, .. } => end,
        Node::Bold { end, .. } => end,
        Node::BoldItalic { end, .. } => end,
        Node::Italic { end, .. } => end,
        Node::Tag { end, .. } => end,
        Node::OrderedList { end, .. } => end,
        Node::UnorderedList { end, .. } => end,
        Node::Category { end, .. } => end,
        Node::Other { end, .. } => end,
    }
}

impl Node {
    /// The character index where this node's span starts.
    pub fn start(&self) -> (s: usize)
        ensures
            s == spec_start(*self),
    {
        match self {
            Node::Preformatted { start, .. } => *start,
            Node::Heading { start, .. } => *start,
            Node::HorizontalDivider { start, .. } => *start,
            Node::Bold { start, .. } => *start,
            Node::BoldItalic { start, .. } => *start,
            Node::Italic { start, .. } => *start,
            Node::Tag { start, .. } => *start,
            Node::OrderedList { start, .. } => *start,
            Node::UnorderedList { start, .. } => *start,
            Node::Category { start, .. } => *start,
            Node::Other { start, .. } => *start,
        }
    }

    /// The character index where this node's span ends.
    pub fn end(&self) -> (e: usize)
        ensures
            e == spec_end(*self),
    {
        match self {
            Node::Preformatted { end, .. } => *end,
            Node::Heading { end, .. } => *end,
            Node::HorizontalDivider { end, .. } => *end,
            Node::Bold { end, .. } => *end,
            Node::BoldItalic { end, .. } => *end,
            Node::Italic { end, .. } => *end,
            Node::Tag { end, .. } => *end,
            Node::OrderedList { end, .. } => *end,
            Node::UnorderedList { end, .. } => *end,
            Node::Category { end, .. } => *end,
            Node::Other { end, .. } => *end,
        }
    }
}

/// Well-formedness of one node against a page text of `len` characters:
/// its span lies within the text, and all children are well formed too.
pub open spec fn node_wf(n: Node, len: nat) -> bool
    decreases n,
{
    spec_start(n) <= spec_end(n) <= len && match n {
        Node::Preformatted { children, .. } => nodes_wf(children@, len),
        Node::Heading { children, .. } => nodes_wf(children@, len),
        Node::Tag { children, .. } => nodes_wf(children@, len),
        Node::OrderedList { items, .. } => items_wf(items@, len),
        Node::UnorderedList { items, .. } => items_wf(items@, len),
        _ => true,
    }
}

/// Well-formedness of a node sequence: every node is well formed.
pub open spec fn nodes_wf(ns: Seq<Node>, len: nat) -> bool
    decreases ns,
{
    forall|i: int| 0 <= i < ns.len() ==> node_wf(#[trigger] ns[i], len)
}

/// Well-formedness of a list-item sequence: every item's nodes are well
/// formed.
pub open spec fn items_wf(items: Seq<ListItem>, len: nat) -> bool
    decreases items,
{
    forall|i: int| 0 <= i < items.len() ==> nodes_wf(#[trigger] items[i].nodes@, len)
}

impl Node {
    /// Checks this node's well-formedness against a page text of `len`
    /// characters.
    pub fn check_wf(&self, len: usize) -> (b: bool)
        ensures
            b == node_wf(*self, len as nat),
        decreases *self,
    {
        let s = self.start();
        let e = self.end();
        if !(s <= e && e <= len) {
            return false;
        }
        match self {
            Node::Preformatted { children, .. } => check_nodes_wf(children, len),
            Node::Heading { children, .. } => check_nodes_wf(children, len),
            Node::Tag { children, .. } => check_nodes_wf(children, len),
            Node::OrderedList { items, .. } => check_items_wf(items, len),
            Node::UnorderedList { items, .. } => check_items_wf(items, len),
            _ => true,
        }
    }
}

/// Checks the well-formedness of a whole node sequence against a page text
/// of `len` characters.  The renderer requires this; an application that
/// receives a tree from an outside parser can establish it with this call.
pub fn check_nodes_wf(nodes: &Vec<Node>, len: usize) -> (b: bool)
    ensures
        b == nodes_wf(nodes@, len as nat),
    decreases nodes@,
{
    let mut i: usize = 0;
    while i < nodes.len()
        invariant
            i <= nodes.len(),
            forall|k: int| 0 <= k < i ==> node_wf(#[trigger] nodes@[k], len as nat),
        decreases nodes@.len() - i,
    {
        if !nodes[i].check_wf(len) {
            proof {
                assert(!node_wf(nodes@[i as int], len as nat));
            }
            return false;
        }
        i += 1;
    }
    true
}

/// Checks the well-formedness of a sequence of list items against a page
/// text of `len` characters.
pub fn check_items_wf(items: &Vec<ListItem>, len: usize) -> (b: bool)
    ensures
        b == items_wf(items@, len as nat),
    decreases items@,
{
    let mut i: usize = 0;
    while i < items.len()
        invariant
            i <= items.len(),
            forall|k: int| 0 <= k < i ==> nodes_wf(#[trigger] items@[k].nodes@, len as nat),
        decreases items@.len() - i,
    {
        if !check_nodes_wf(&items[i].nodes, len) {
            proof {
                assert(!nodes_wf(items@[i as int].nodes@, len as nat));
            }
            return false;
        }
        i += 1;
    }
    true
}

/// The per-page inline-style toggle state: three independent flags, one per
/// style kind.  A toggle node flips its flag; the flags are shared across
/// one whole page render and are never reset between siblings.
pub struct RenderState {
    /// Whether a bold span is currently open.
    pub bold_open: bool,
    /// Whether a bold-italic span is currently open.
    pub bold_italic_open: bool,
    /// Whether an italic span is currently open.
    pub italic_open: bool,
}

impl RenderState {
    /// The state at the start of a page render: no span is open.
    pub fn new() -> (st: RenderState)
        ensures
            st == RenderState::initial(),
    {
        RenderState { bold_open: false, bold_italic_open: false, italic_open: false }
    }

    /// The state with all three flags false.
    pub open spec fn initial() -> RenderState {
        RenderState { bold_open: false, bold_italic_open: false, italic_open: false }
    }
}

} // verus!
