//! General properties of the renderer, stated over the rendering
//! specification and proved once for all inputs.

use vstd::prelude::*;
use crate::node::{ListItem, Node, RenderState};
use crate::render::{
    bold_open_tag, render_items_spec, render_node_spec, render_nodes_spec, span_close_tag,
};

verus! {

/// Whether a node contains no bold/italic/bold-italic toggle anywhere,
/// itself and its children included.
pub open spec fn node_toggle_free(n: Node) -> bool
    decreases n,
{
    match n {
        Node::Bold { .. } => false,
        Node::BoldItalic { .. } => false,
        Node::Italic { .. } => false,
        Node::Preformatted { children, .. } => nodes_toggle_free(children@),
        Node::Heading { children, .. } => nodes_toggle_free(children@),
        Node::Tag { children, .. } => nodes_toggle_free(children@),
        Node::OrderedList { items, .. } => items_toggle_free(items@),
        Node::UnorderedList { items, .. } => items_toggle_free(items@),
        _ => true,
    }
}

/// Whether a node sequence contains no toggle node anywhere.
pub open spec fn nodes_toggle_free(ns: Seq<Node>) -> bool
    decreases ns,
{
    forall|i: int| 0 <= i < ns.len() ==> node_toggle_free(#[trigger] ns[i])
}

/// Whether a list-item sequence contains no toggle node anywhere.
pub open spec fn items_toggle_free(items: Seq<ListItem>) -> bool
    decreases items,
{
    forall|i: int| 0 <= i < items.len() ==> nodes_toggle_free(#[trigger] items[i].nodes@)
}

/// Rendering a toggle-free node leaves every toggle flag exactly as it
/// was, and its output does not depend on the flags at all.
pub proof fn lemma_toggle_free_node(text: Seq<char>, n: Node, st1: RenderState, st2: RenderState)
    requires
        node_toggle_free(n),
    ensures
        render_node_spec(text, n, st1).1 == st1,
        render_node_spec(text, n, st2).1 == st2,
        render_node_spec(text, n, st1).0 == render_node_spec(text, n, st2).0,
    decreases n,
{
    match n {
        Node::Preformatted { children, .. } => {
            lemma_toggle_free_nodes(text, children@, st1, st2);
        },
        Node::Heading { children, .. } => {
            lemma_toggle_free_nodes(text, children@, st1, st2);
        },
        Node::OrderedList { items, .. } => {
            lemma_toggle_free_items(text, items@, st1, st2);
        },
        Node::UnorderedList { items, .. } => {
            lemma_toggle_free_items(text, items@, st1, st2);
        },
        _ => {},
    }
}

/// Rendering a node sequence with no toggle node anywhere leaves every
/// toggle flag exactly as it was — in particular, flags that start false
/// stay false throughout — and no span tag placement depends on the flags:
/// the output is the same whatever the flags were.
pub proof fn lemma_toggle_free_nodes(
    text: Seq<char>,
    ns: Seq<Node>,
    st1: RenderState,
    st2: RenderState,
)
    requires
        nodes_toggle_free(ns),
    ensures
        render_nodes_spec(text, ns, st1).1 == st1,
        render_nodes_spec(text, ns, st2).1 == st2,
        render_nodes_spec(text, ns, st1).0 == render_nodes_spec(text, ns, st2).0,
    decreases ns,
{
    if ns.len() > 0 {
        let pre = ns.subrange(0, ns.len() - 1);
        assert forall|i: int| 0 <= i < pre.len() implies node_toggle_free(#[trigger] pre[i]) by {
            assert(pre[i] == ns[i]);
        }
        lemma_toggle_free_nodes(text, pre, st1, st2);
        assert(node_toggle_free(ns[ns.len() - 1]));
        lemma_toggle_free_node(text, ns[ns.len() - 1], st1, st2);
    }
}

/// Rendering toggle-free list items leaves every toggle flag exactly as it
/// was, and the output does not depend on the flags.
pub proof fn lemma_toggle_free_items(
    text: Seq<char>,
    items: Seq<ListItem>,
    st1: RenderState,
    st2: RenderState,
)
    requires
        items_toggle_free(items),
    ensures
        render_items_spec(text, items, st1).1 == st1,
        render_items_spec(text, items, st2).1 == st2,
        render_items_spec(text, items, st1).0 == render_items_spec(text, items, st2).0,
    decreases items,
{
    if items.len() > 0 {
        let pre = items.subrange(0, items.len() - 1);
        assert forall|i: int| 0 <= i < pre.len() implies nodes_toggle_free(
            #[trigger] pre[i].nodes@,
        ) by {
            assert(pre[i] == items[i]);
        }
        lemma_toggle_free_items(text, pre, st1, st2);
        assert(nodes_toggle_free(items[items.len() - 1].nodes@));
        lemma_toggle_free_nodes(text, items[items.len() - 1].nodes@, st1, st2);
    }
}

/// Along a node sequence with no toggle node anywhere, the flags stay
/// exactly as they began at every intermediate point of the walk, not only
/// at its end: flags that start false remain false throughout.
pub proof fn lemma_toggle_free_throughout(text: Seq<char>, ns: Seq<Node>, st: RenderState, i: int)
    requires
        nodes_toggle_free(ns),
        0 <= i <= ns.len(),
    ensures
        render_nodes_spec(text, ns.subrange(0, i), st).1 == st,
{
    let pre = ns.subrange(0, i);
    assert forall|k: int| 0 <= k < pre.len() implies node_toggle_free(#[trigger] pre[k]) by {
        assert(pre[k] == ns[k]);
    }
    lemma_toggle_free_nodes(text, pre, st, st);
}

/// Two consecutive bold toggles with nothing between them emit an opening
/// span immediately followed by its closing tag, and the bold flag returns
/// to false: the pair is net-neutral.
pub proof fn lemma_bold_pair(text: Seq<char>, b1: Node, b2: Node, st: RenderState)
    requires
        !st.bold_open,
        b1 is Bold,
        b2 is Bold,
    ensures
        render_nodes_spec(text, seq![b1, b2], st).0 == bold_open_tag() + span_close_tag(),
        render_nodes_spec(text, seq![b1, b2], st).1 == st,
{
    reveal_with_fuel(render_nodes_spec, 4);
    let ns = seq![b1, b2];
    assert(ns.subrange(0, 1) =~= seq![b1]);
    assert(seq![b1].subrange(0, 0) =~= Seq::<Node>::empty());
    assert(render_nodes_spec(text, seq![b1], st).0 =~= bold_open_tag());
    assert(render_nodes_spec(text, ns, st).0 =~= bold_open_tag() + span_close_tag());
}

/// A catch-all node with span `(start, end)` renders to exactly the
/// characters of the page text between those indices, and touches no
/// toggle flag.
pub proof fn lemma_offset_fidelity(text: Seq<char>, start: usize, end: usize, st: RenderState)
    ensures
        render_node_spec(text, (Node::Other { start, end }), st).0 == text.subrange(
            start as int,
            end as int,
        ),
        render_node_spec(text, (Node::Other { start, end }), st).1 == st,
{
}

/// A node sequence consisting solely of one category marker renders to the
/// empty output, and touches no toggle flag.
pub proof fn lemma_category_suppressed(text: Seq<char>, start: usize, end: usize, st: RenderState)
    ensures
        render_nodes_spec(text, seq![(Node::Category { start, end })], st).0 == Seq::<
            char,
        >::empty(),
        render_nodes_spec(text, seq![(Node::Category { start, end })], st).1 == st,
{
    reveal_with_fuel(render_nodes_spec, 3);
    let ns = seq![(Node::Category { start, end })];
    assert(ns.subrange(0, 0) =~= Seq::<Node>::empty());
    assert(render_nodes_spec(text, ns, st).0 =~= Seq::<char>::empty());
}

} // verus!
