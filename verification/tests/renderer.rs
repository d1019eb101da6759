use wiki_dump_to_html::node::{check_nodes_wf, ListItem, Node, RenderState};
use wiki_dump_to_html::render::{render_nodes, render_page};

const BOLD_OPEN: &str = "<span style=\"font-weight:bold;\">";
const BOLD_ITALIC_OPEN: &str = "<span style=\"font-weight:bold;font-style:italic;\">";
const ITALIC_OPEN: &str = "<span style=\"font-style:italic;\">";
const CLOSE: &str = "</span>";

fn other(start: usize, end: usize) -> Node {
    Node::Other { start, end }
}

fn bold() -> Node {
    Node::Bold { start: 0, end: 0 }
}

#[test]
fn fallback_node_is_verbatim() {
    let text = "hello [[world]]!";
    let nodes = vec![other(6, 15)];
    assert!(check_nodes_wf(&nodes, text.len()));
    assert_eq!(render_page(text, &nodes), "[[world]]");
}

#[test]
fn fallback_node_spans_are_character_indices() {
    let text = "\u{3b1}\u{3b2}\u{3b3}";
    let nodes = vec![other(1, 3)];
    assert_eq!(render_page(text, &nodes), "\u{3b2}\u{3b3}");
}

#[test]
fn empty_sequence_renders_to_nothing() {
    let nodes: Vec<Node> = Vec::new();
    assert_eq!(render_page("anything", &nodes), "");
}

#[test]
fn category_node_is_suppressed() {
    let text = "[[Category:Things]]";
    let nodes = vec![Node::Category { start: 0, end: 19 }];
    assert_eq!(render_page(text, &nodes), "");
}

#[test]
fn bold_pair_is_net_neutral() {
    let nodes = vec![bold(), bold()];
    let mut state = RenderState::new();
    let mut out = String::new();
    render_nodes("", &nodes, &mut state, &mut out);
    assert_eq!(out, format!("{}{}", BOLD_OPEN, CLOSE));
    assert!(!state.bold_open);
    assert!(!state.bold_italic_open);
    assert!(!state.italic_open);
}

#[test]
fn toggles_wrap_intervening_text() {
    let text = "xy";
    let nodes = vec![bold(), other(0, 1), bold(), other(1, 2)];
    assert_eq!(render_page(text, &nodes), format!("{}x{}y", BOLD_OPEN, CLOSE));
}

#[test]
fn three_toggle_kinds_are_independent() {
    let nodes = vec![
        bold(),
        Node::BoldItalic { start: 0, end: 0 },
        Node::Italic { start: 0, end: 0 },
        bold(),
        Node::BoldItalic { start: 0, end: 0 },
        Node::Italic { start: 0, end: 0 },
    ];
    assert_eq!(
        render_page("", &nodes),
        format!("{}{}{}{}{}{}", BOLD_OPEN, BOLD_ITALIC_OPEN, ITALIC_OPEN, CLOSE, CLOSE, CLOSE)
    );
}

#[test]
fn toggle_state_is_shared_with_child_sequences() {
    let nodes = vec![
        bold(),
        Node::Heading { start: 0, end: 0, level: 1, children: vec![bold()] },
    ];
    assert_eq!(render_page("", &nodes), format!("{}<h3>{}</h3>", BOLD_OPEN, CLOSE));
}

#[test]
fn toggle_free_sequence_emits_no_span_tags() {
    let text = "some plain text";
    let nodes = vec![
        Node::Heading { start: 0, end: 4, level: 2, children: vec![other(0, 4)] },
        other(5, 15),
        Node::HorizontalDivider { start: 0, end: 4 },
    ];
    let mut state = RenderState::new();
    let mut out = String::new();
    render_nodes(text, &nodes, &mut state, &mut out);
    assert!(!out.contains("<span"));
    assert!(!state.bold_open);
    assert!(!state.bold_italic_open);
    assert!(!state.italic_open);
}

#[test]
fn unordered_list_wraps_items_in_order() {
    let text = "ab";
    let items = vec![
        ListItem { nodes: vec![other(0, 1)] },
        ListItem { nodes: vec![other(1, 2)] },
    ];
    let nodes = vec![Node::UnorderedList { start: 0, end: 2, items }];
    assert_eq!(render_page(text, &nodes), "<ul><li>a</li><li>b</li></ul>");
}

#[test]
fn ordered_list_uses_ol_tags() {
    let text = "ab";
    let items = vec![
        ListItem { nodes: vec![other(0, 1)] },
        ListItem { nodes: vec![other(1, 2)] },
    ];
    let nodes = vec![Node::OrderedList { start: 0, end: 2, items }];
    assert_eq!(render_page(text, &nodes), "<ol><li>a</li><li>b</li></ol>");
}

#[test]
fn empty_list_emits_bare_container() {
    let nodes = vec![Node::UnorderedList { start: 0, end: 0, items: Vec::new() }];
    assert_eq!(render_page("", &nodes), "<ul></ul>");
}

#[test]
fn heading_level_is_remapped_two_deeper() {
    let text = "Intro";
    let nodes = vec![Node::Heading { start: 0, end: 5, level: 1, children: vec![other(0, 5)] }];
    assert_eq!(render_page(text, &nodes), "<h3>Intro</h3>");
}

#[test]
fn heading_levels_are_not_clamped() {
    let nodes = vec![
        Node::Heading { start: 0, end: 0, level: 5, children: Vec::new() },
        Node::Heading { start: 0, end: 0, level: 6, children: Vec::new() },
    ];
    assert_eq!(render_page("", &nodes), "<h7></h7><h8></h8>");
}

#[test]
fn preformatted_block_renders_children_inside_pre() {
    let text = "code";
    let nodes = vec![Node::Preformatted { start: 0, end: 4, children: vec![other(0, 4)] }];
    assert_eq!(render_page(text, &nodes), "<pre>code</pre>");
}

#[test]
fn horizontal_divider_is_self_closing() {
    let nodes = vec![Node::HorizontalDivider { start: 0, end: 4 }];
    assert_eq!(render_page("----", &nodes), "<hr />");
}

#[test]
fn syntaxhighlight_tag_copies_children_verbatim() {
    let text = "let x = 1;";
    let nodes = vec![Node::Tag {
        start: 0,
        end: 10,
        name: String::from("syntaxhighlight"),
        children: vec![other(0, 10)],
    }];
    assert_eq!(render_page(text, &nodes), "<pre>let x = 1;</pre>");
}

#[test]
fn syntaxhighlight_children_each_get_their_own_pre_block() {
    let text = "ab'''cd'''";
    let nodes = vec![Node::Tag {
        start: 0,
        end: 10,
        name: String::from("syntaxhighlight"),
        children: vec![other(0, 2), other(2, 10)],
    }];
    assert_eq!(render_page(text, &nodes), "<pre>ab</pre><pre>'''cd'''</pre>");
}

#[test]
fn other_tags_are_reproduced_from_their_span() {
    let text = "a<ref>b</ref>c";
    let nodes = vec![Node::Tag {
        start: 1,
        end: 13,
        name: String::from("ref"),
        children: vec![other(6, 7)],
    }];
    assert_eq!(render_page(text, &nodes), "<ref>b</ref>");
}

#[test]
fn wf_check_accepts_in_bounds_spans() {
    let text = "abcdef";
    let nodes = vec![
        Node::Heading { start: 0, end: 3, level: 1, children: vec![other(0, 3)] },
        Node::UnorderedList {
            start: 3,
            end: 6,
            items: vec![ListItem { nodes: vec![other(3, 6)] }],
        },
    ];
    assert!(check_nodes_wf(&nodes, text.chars().count()));
}

#[test]
fn wf_check_rejects_span_past_text_end() {
    let nodes = vec![other(0, 7)];
    assert!(!check_nodes_wf(&nodes, 6));
}

#[test]
fn wf_check_rejects_reversed_span() {
    let nodes = vec![other(5, 2)];
    assert!(!check_nodes_wf(&nodes, 6));
}

#[test]
fn wf_check_rejects_bad_span_deep_in_a_list_item() {
    let nodes = vec![Node::OrderedList {
        start: 0,
        end: 2,
        items: vec![ListItem { nodes: vec![other(1, 9)] }],
    }];
    assert!(!check_nodes_wf(&nodes, 6));
}

#[test]
fn try_render_accepts_well_formed_trees() {
    let text = "Intro";
    let nodes = vec![Node::Heading { start: 0, end: 5, level: 1, children: vec![other(0, 5)] }];
    assert_eq!(
        wiki_dump_to_html::render::try_render_page(text, &nodes),
        Some(String::from("<h3>Intro</h3>"))
    );
}

#[test]
fn try_render_reports_malformed_trees() {
    let nodes = vec![other(0, 99)];
    assert_eq!(wiki_dump_to_html::render::try_render_page("short", &nodes), None);
}
