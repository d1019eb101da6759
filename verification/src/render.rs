//! The node-tree renderer: a depth-first walk over a page's node sequence
//! that emits an HTML fragment.
//!
//! Headings, lists and preformatted blocks recurse into their children;
//! bold, italic and bold-italic nodes are pure delimiters that flip one of
//! the three toggle flags of the shared [`RenderState`]; `syntaxhighlight`
//! tags and the catch-all node are reproduced verbatim from their character
//! spans into the original page text; category markers are suppressed.

use vstd::prelude::*;
use crate::node::{ListItem, Node, RenderState, check_nodes_wf, items_wf, node_wf, nodes_wf, spec_end, spec_start};

verus! {

/// The opening tag emitted when a bold span is toggled on.
pub open spec fn bold_open_tag() -> Seq<char> {
    "<span style=\"font-weight:bold;\">"@
}

/// The opening tag emitted when a bold-italic span is toggled on.
pub open spec fn bold_italic_open_tag() -> Seq<char> {
    "<span style=\"font-weight:bold;font-style:italic;\">"@
}

/// The opening tag emitted when an italic span is toggled on.
pub open spec fn italic_open_tag() -> Seq<char> {
    "<span style=\"font-style:italic;\">"@
}

/// The closing tag emitted when any inline span is toggled off.
pub open spec fn span_close_tag() -> Seq<char> {
    "</span>"@
}

/// The character for one decimal digit.
pub open spec fn digit_char(d: nat) -> char {
    if d == 0 {
        '0'
    } else if d == 1 {
        '1'
    } else if d == 2 {
        '2'
    } else if d == 3 {
        '3'
    } else if d == 4 {
        '4'
    } else if d == 5 {
        '5'
    } else if d == 6 {
        '6'
    } else if d == 7 {
        '7'
    } else if d == 8 {
        '8'
    } else {
        '9'
    }
}

/// The decimal digits of a number, most significant first, without leading
/// zeros (except for the number 0 itself).
pub open spec fn dec_chars(n: nat) -> Seq<char>
    decreases n,
{
    if n < 10 {
        seq![digit_char(n)]
    } else {
        dec_chars(n / 10).push(digit_char(n % 10))
    }
}

/// The effective HTML heading level of a wikitext heading: two deeper than
/// the wikitext level, so that the outermost rendered heading is `<h3>` and
/// `<h1>`/`<h2>` stay reserved for the surrounding document.  Levels are
/// not clamped.
pub open spec fn effective_level(level: u8) -> nat {
    (level + 2) as nat
}

/// The opening tag of a heading of the given wikitext level.
pub open spec fn heading_open_tag(level: u8) -> Seq<char> {
    "<h"@ + dec_chars(effective_level(level)) + ">"@
}

/// The closing tag of a heading of the given wikitext level.
pub open spec fn heading_close_tag(level: u8) -> Seq<char> {
    "</h"@ + dec_chars(effective_level(level)) + ">"@
}

/// What rendering one node emits, and the toggle state it leaves behind.
pub open spec fn render_node_spec(text: Seq<char>, n: Node, st: RenderState) -> (Seq<char>,
    RenderState)
    decreases n,
{
    match n {
        Node::Preformatted { children, .. } => {
            let (body, st2) = render_nodes_spec(text, children@, st);
            ("<pre>"@ + body + "</pre>"@, st2)
        },
        Node::Heading { level, children, .. } => {
            let (body, st2) = render_nodes_spec(text, children@, st);
            (heading_open_tag(level) + body + heading_close_tag(level), st2)
        },
        Node::HorizontalDivider { .. } => ("<hr />"@, st),
        Node::Bold { .. } => {
            let now_open = !st.bold_open;
            (
                if now_open {
                    bold_open_tag()
                } else {
                    span_close_tag()
                },
                RenderState {
                    bold_open: now_open,
                    bold_italic_open: st.bold_italic_open,
                    italic_open: st.italic_open,
                },
            )
        },
        Node::BoldItalic { .. } => {
            let now_open = !st.bold_italic_open;
            (
                if now_open {
                    bold_italic_open_tag()
                } else {
                    span_close_tag()
                },
                RenderState {
                    bold_open: st.bold_open,
                    bold_italic_open: now_open,
                    italic_open: st.italic_open,
                },
            )
        },
        Node::Italic { .. } => {
            let now_open = !st.italic_open;
            (
                if now_open {
                    italic_open_tag()
                } else {
                    span_close_tag()
                },
                RenderState {
                    bold_open: st.bold_open,
                    bold_italic_open: st.bold_italic_open,
                    italic_open: now_open,
                },
            )
        },
        Node::Tag { name, children, start, end } => {
            if name@ == "syntaxhighlight"@ {
                (verbatim_blocks_spec(text, children@), st)
            } else {
                (text.subrange(start as int, end as int), st)
            }
        },
        Node::OrderedList { items, .. } => {
            let (body, st2) = render_items_spec(text, items@, st);
            ("<ol>"@ + body + "</ol>"@, st2)
        },
        Node::UnorderedList { items, .. } => {
            let (body, st2) = render_items_spec(text, items@, st);
            ("<ul>"@ + body + "</ul>"@, st2)
        },
        Node::Category { .. } => (Seq::empty(), st),
        Node::Other { start, end } => (text.subrange(start as int, end as int), st),
    }
}

/// What rendering a node sequence emits, node by node from left to right,
/// threading one toggle state through the whole sequence.
pub open spec fn render_nodes_spec(text: Seq<char>, ns: Seq<Node>, st: RenderState) -> (Seq<char>,
    RenderState)
    decreases ns,
{
    if ns.len() == 0 {
        (Seq::empty(), st)
    } else {
        let (head_out, st1) = render_nodes_spec(text, ns.subrange(0, ns.len() - 1), st);
        let (last_out, st2) = render_node_spec(text, ns[ns.len() - 1], st1);
        (head_out + last_out, st2)
    }
}

/// What rendering a list's items emits: each item's nodes wrapped in a
/// list-item tag pair, with the toggle state threaded through.
pub open spec fn render_items_spec(text: Seq<char>, items: Seq<ListItem>, st: RenderState) -> (
    Seq<char>,
    RenderState,
)
    decreases items,
{
    if items.len() == 0 {
        (Seq::empty(), st)
    } else {
        let (head_out, st1) = render_items_spec(text, items.subrange(0, items.len() - 1), st);
        let (last_out, st2) = render_nodes_spec(text, items[items.len() - 1].nodes@, st1);
        (head_out + "<li>"@ + last_out + "</li>"@, st2)
    }
}

/// What a `syntaxhighlight` tag emits for its children: each child's span
/// copied verbatim from the page text inside its own `<pre>` block,
/// preserving markup characters literally.
pub open spec fn verbatim_blocks_spec(text: Seq<char>, children: Seq<Node>) -> Seq<char>
    decreases children,
{
    if children.len() == 0 {
        Seq::empty()
    } else {
        let last = children[children.len() - 1];
        verbatim_blocks_spec(text, children.subrange(0, children.len() - 1)) + "<pre>"@
            + text.subrange(spec_start(last) as int, spec_end(last) as int) + "</pre>"@
    }
}

/// Appends the decimal digits of `n` to `out`.
fn push_decimal(n: u16, out: &mut String)
    ensures
        final(out)@ == old(out)@ + dec_chars(n as nat),
    decreases n,
{
    if n >= 10 {
        push_decimal(n / 10, out);
    }
    let d: u16 = n % 10;
    match d {
        0 => out.append("0"),
        1 => out.append("1"),
        2 => out.append("2"),
        3 => out.append("3"),
        4 => out.append("4"),
        5 => out.append("5"),
        6 => out.append("6"),
        7 => out.append("7"),
        8 => out.append("8"),
        _ => out.append("9"),
    }
    proof {
        reveal_strlit("0");
        reveal_strlit("1");
        reveal_strlit("2");
        reveal_strlit("3");
        reveal_strlit("4");
        reveal_strlit("5");
        reveal_strlit("6");
        reveal_strlit("7");
        reveal_strlit("8");
        reveal_strlit("9");
        assert(final(out)@ =~= old(out)@ + dec_chars(n as nat));
    }
}

/// Whether a tag name is the `syntaxhighlight` tag.
fn is_syntaxhighlight(name: &String) -> (b: bool)
    ensures
        b == (name@ == "syntaxhighlight"@),
{
    let lit = String::from_str("syntaxhighlight");
    name.eq(&lit)
}

/// Renders a node sequence, appending the emitted HTML fragment to `out`
/// and flipping the toggle flags of `state` as bold/italic delimiters are
/// met.  The same state is threaded through the entire recursion: child
/// nodes and later siblings observe the flags exactly as earlier nodes
/// left them.
pub fn render_nodes(text: &str, nodes: &Vec<Node>, state: &mut RenderState, out: &mut String)
    requires
        nodes_wf(nodes@, text@.len()),
    ensures
        final(out)@ == old(out)@ + render_nodes_spec(text@, nodes@, *old(state)).0,
        *final(state) == render_nodes_spec(text@, nodes@, *old(state)).1,
    decreases nodes@,
{
    let ghost st0 = *state;
    let ghost out0 = out@;
    let ghost len = text@.len();
    let mut i: usize = 0;
    while i < nodes.len()
        invariant
            nodes_wf(nodes@, len),
            len == text@.len(),
            i <= nodes.len(),
            out@ == out0 + render_nodes_spec(text@, nodes@.subrange(0, i as int), st0).0,
            *state == render_nodes_spec(text@, nodes@.subrange(0, i as int), st0).1,
        decreases nodes@.len() - i,
    {
        let ghost st_i = *state;
        let ghost out_i = out@;
        proof {
            assert(node_wf(nodes@[i as int], len));
        }
        let node = &nodes[i];
        match node {
            Node::Preformatted { children, .. } => {
                out.append("<pre>");
                render_nodes(text, children, state, out);
                out.append("</pre>");
            },
            Node::Heading { level, children, .. } => {
                let l: u16 = (*level as u16) + 2;
                out.append("<h");
                push_decimal(l, out);
                out.append(">");
                render_nodes(text, children, state, out);
                out.append("</h");
                push_decimal(l, out);
                out.append(">");
            },
            Node::HorizontalDivider { .. } => {
                out.append("<hr />");
            },
            Node::Bold { .. } => {
                state.bold_open = !state.bold_open;
                if state.bold_open {
                    out.append("<span style=\"font-weight:bold;\">");
                } else {
                    out.append("</span>");
                }
            },
            Node::BoldItalic { .. } => {
                state.bold_italic_open = !state.bold_italic_open;
                if state.bold_italic_open {
                    out.append("<span style=\"font-weight:bold;font-style:italic;\">");
                } else {
                    out.append("</span>");
                }
            },
            Node::Italic { .. } => {
                state.italic_open = !state.italic_open;
                if state.italic_open {
                    out.append("<span style=\"font-style:italic;\">");
                } else {
                    out.append("</span>");
                }
            },
            Node::Tag { name, children, start, end } => {
                if is_syntaxhighlight(name) {
                    let ghost kids = children@;
                    let mut j: usize = 0;
                    while j < children.len()
                        invariant
                            nodes_wf(kids, len),
                            len == text@.len(),
                            kids == children@,
                            j <= children.len(),
                            out@ == out_i + verbatim_blocks_spec(text@, kids.subrange(0, j as int)),
                        decreases children@.len() - j,
                    {
                        proof {
                            assert(node_wf(kids[j as int], len));
                        }
                        let child = &children[j];
                        out.append("<pre>");
                        out.append(text.substring_char(child.start(), child.end()));
                        out.append("</pre>");
                        proof {
                            assert(kids.subrange(0, j + 1).subrange(0, j as int) =~= kids.subrange(
                                0,
                                j as int,
                            ));
                            assert(kids.subrange(0, j + 1)[j as int] == kids[j as int]);
                        }
                        j += 1;
                    }
                    proof {
                        assert(kids.subrange(0, children@.len() as int) =~= kids);
                    }
                } else {
                    out.append(text.substring_char(*start, *end));
                }
            },
            Node::OrderedList { items, .. } => {
                out.append("<ol>");
                render_items(text, items, state, out);
                out.append("</ol>");
            },
            Node::UnorderedList { items, .. } => {
                out.append("<ul>");
                render_items(text, items, state, out);
                out.append("</ul>");
            },
            Node::Category { .. } => {},
            Node::Other { start, end } => {
                out.append(text.substring_char(*start, *end));
            },
        }
        proof {
            assert(out@ =~= out_i + render_node_spec(text@, nodes@[i as int], st_i).0);
            assert(*state == render_node_spec(text@, nodes@[i as int], st_i).1);
            let prefix = nodes@.subrange(0, i + 1);
            assert(prefix.subrange(0, i as int) =~= nodes@.subrange(0, i as int));
            assert(prefix[i as int] == nodes@[i as int]);
            assert(out@ =~= out0 + render_nodes_spec(text@, prefix, st0).0);
        }
        i += 1;
    }
    proof {
        assert(nodes@.subrange(0, nodes@.len() as int) =~= nodes@);
    }
}

/// Renders the items of one list, wrapping each item's rendering in a
/// list-item tag pair; the toggle state is threaded through all items.
fn render_items(text: &str, items: &Vec<ListItem>, state: &mut RenderState, out: &mut String)
    requires
        items_wf(items@, text@.len()),
    ensures
        final(out)@ == old(out)@ + render_items_spec(text@, items@, *old(state)).0,
        *final(state) == render_items_spec(text@, items@, *old(state)).1,
    decreases items@,
{
    let ghost st0 = *state;
    let ghost out0 = out@;
    let ghost len = text@.len();
    let mut i: usize = 0;
    while i < items.len()
        invariant
            items_wf(items@, len),
            len == text@.len(),
            i <= items.len(),
            out@ == out0 + render_items_spec(text@, items@.subrange(0, i as int), st0).0,
            *state == render_items_spec(text@, items@.subrange(0, i as int), st0).1,
        decreases items@.len() - i,
    {
        proof {
            assert(nodes_wf(items@[i as int].nodes@, len));
        }
        out.append("<li>");
        render_nodes(text, &items[i].nodes, state, out);
        out.append("</li>");
        proof {
            let prefix = items@.subrange(0, i + 1);
            assert(prefix.subrange(0, i as int) =~= items@.subrange(0, i as int));
            assert(prefix[i as int] == items@[i as int]);
            assert(out@ =~= out0 + render_items_spec(text@, prefix, st0).0);
        }
        i += 1;
    }
    proof {
        assert(items@.subrange(0, items@.len() as int) =~= items@);
    }
}

/// Renders one whole page: walks the page's node sequence with a fresh
/// toggle state (no span open) and returns the emitted HTML fragment.
pub fn render_page(text: &str, nodes: &Vec<Node>) -> (out: String)
    requires
        nodes_wf(nodes@, text@.len()),
    ensures
        out@ == render_nodes_spec(text@, nodes@, RenderState::initial()).0,
{
    let mut state = RenderState::new();
    let mut out = String::new();
    render_nodes(text, nodes, &mut state, &mut out);
    out
}

/// Renders one whole page after checking the node tree against the page
/// text: exactly the well-formed trees are rendered; a tree with a span
/// outside the text is reported as `None` instead of aborting the render.
pub fn try_render_page(text: &str, nodes: &Vec<Node>) -> (out: Option<String>)
    ensures
        out is Some <==> nodes_wf(nodes@, text@.len()),
        out matches Some(fragment) ==> fragment@ == render_nodes_spec(
            text@,
            nodes@,
            RenderState::initial(),
        ).0,
{
    let text_chars = text.unicode_len();
    if check_nodes_wf(nodes, text_chars) {
        Some(render_page(text, nodes))
    } else {
        None
    }
}

} // verus!
