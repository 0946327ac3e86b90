use webdom::{Attr, ChildEntry, Document, Sink, TagName, TextStyle, VisualNode};

fn tag(local: &str) -> TagName {
    TagName { ns: "http://www.w3.org/1999/xhtml".to_string(), local: local.to_string() }
}

fn attr(name: &str, value: &str) -> Attr {
    Attr { name: name.to_string(), value: value.to_string() }
}

/// A document whose root holds one element with the given tag and
/// attributes, which in turn holds one text run.
fn doc_with_leaf(parent_tag: &str, attrs: Vec<Attr>, text: &str) -> Document {
    let mut sink = Sink::new();
    let root = sink.get_document();
    let elem = sink.create_element(tag(parent_tag), attrs);
    sink.append(root, ChildEntry::Node(elem));
    sink.append(elem, ChildEntry::Text(text.to_string()));
    sink.finish()
}

fn expect_container(node: &VisualNode) -> (&bool, &Option<String>, &Vec<VisualNode>) {
    match node {
        VisualNode::Container { horizontal, frame_label, children } => {
            (horizontal, frame_label, children)
        }
        _ => panic!("expected a container"),
    }
}

#[test]
fn empty_document_renders_to_empty_container() {
    let doc = Sink::new().finish();
    let node = doc.render(false);
    let (horizontal, frame_label, children) = expect_container(&node);
    assert!(!*horizontal);
    assert!(frame_label.is_none());
    assert!(children.is_empty());
}

#[test]
fn head_with_visible_children_renders_to_nothing() {
    // root -> head -> title -> "X": invisible regions are never entered, so
    // the whole document collapses to an empty top-level container.
    let mut sink = Sink::new();
    let root = sink.get_document();
    let head = sink.create_element(tag("head"), Vec::new());
    sink.append(root, ChildEntry::Node(head));
    let title = sink.create_element(tag("title"), Vec::new());
    sink.append(head, ChildEntry::Node(title));
    sink.append(title, ChildEntry::Text("X".to_string()));
    let doc = sink.finish();
    let node = doc.render(false);
    let (_, _, children) = expect_container(&node);
    assert!(children.is_empty());
}

#[test]
fn script_and_style_render_to_nothing() {
    for hidden in ["script", "style"] {
        let doc = doc_with_leaf(hidden, Vec::new(), "visible-looking text");
        let node = doc.render(false);
        let (_, _, children) = expect_container(&node);
        assert!(children.is_empty());
    }
}

#[test]
fn element_with_only_invisible_descendants_yields_no_container() {
    // root -> div -> head -> "hidden": the div holds nothing visible, so it
    // must produce no node at all, never an empty container.
    let mut sink = Sink::new();
    let root = sink.get_document();
    let div = sink.create_element(tag("div"), Vec::new());
    sink.append(root, ChildEntry::Node(div));
    let head = sink.create_element(tag("head"), Vec::new());
    sink.append(div, ChildEntry::Node(head));
    sink.append(head, ChildEntry::Text("hidden".to_string()));
    let doc = sink.finish();
    let node = doc.render(false);
    let (_, _, children) = expect_container(&node);
    assert!(children.is_empty());
}

#[test]
fn heading_scales_match_the_styling_table() {
    let cases = [
        ("h1", 32u32),
        ("h2", 24),
        ("h3", 19),
        ("h4", 16),
        ("h5", 13),
        ("h6", 11),
    ];
    for (heading, scale) in cases {
        let doc = doc_with_leaf(heading, Vec::new(), "title");
        let node = doc.render(false);
        let (_, _, top_children) = expect_container(&node);
        assert_eq!(top_children.len(), 1);
        let (_, _, leaf_children) = expect_container(&top_children[0]);
        assert_eq!(leaf_children.len(), 1);
        match &leaf_children[0] {
            VisualNode::Text { text, style } => {
                assert_eq!(text, "title");
                assert_eq!(*style, TextStyle::Scale(scale));
            }
            _ => panic!("expected a text leaf"),
        }
    }
}

#[test]
fn non_heading_parent_carries_no_scale_override() {
    let doc = doc_with_leaf("p", Vec::new(), "plain");
    let node = doc.render(false);
    let (_, _, top_children) = expect_container(&node);
    let (horizontal, _, leaf_children) = expect_container(&top_children[0]);
    assert!(*horizontal);
    match &leaf_children[0] {
        VisualNode::Text { text, style } => {
            assert_eq!(text, "plain");
            assert_eq!(*style, TextStyle::Plain);
        }
        _ => panic!("expected a text leaf"),
    }
}

#[test]
fn emphasis_tags_carry_bold_and_italic() {
    let cases = [
        ("b", TextStyle::Bold),
        ("strong", TextStyle::Bold),
        ("i", TextStyle::Italic),
        ("em", TextStyle::Italic),
    ];
    for (emphasis, expected) in cases {
        let doc = doc_with_leaf(emphasis, Vec::new(), "word");
        let node = doc.render(false);
        let (_, _, top_children) = expect_container(&node);
        let (_, _, leaf_children) = expect_container(&top_children[0]);
        match &leaf_children[0] {
            VisualNode::Text { style, .. } => assert_eq!(*style, expected),
            _ => panic!("expected a text leaf"),
        }
    }
}

#[test]
fn anchor_with_href_renders_as_link_leaf() {
    let doc = doc_with_leaf("a", vec![attr("href", "https://x")], "go");
    let node = doc.render(false);
    let (_, _, top_children) = expect_container(&node);
    let (_, _, leaf_children) = expect_container(&top_children[0]);
    assert_eq!(leaf_children.len(), 1);
    match &leaf_children[0] {
        VisualNode::Link { href, text } => {
            assert_eq!(href, "https://x");
            assert_eq!(text, "go");
        }
        _ => panic!("expected a link leaf"),
    }
}

#[test]
fn anchor_without_href_falls_back_to_text_leaf() {
    let doc = doc_with_leaf("a", vec![attr("id", "y")], "go");
    let node = doc.render(false);
    let (_, _, top_children) = expect_container(&node);
    let (_, _, leaf_children) = expect_container(&top_children[0]);
    match &leaf_children[0] {
        VisualNode::Text { text, style } => {
            assert_eq!(text, "go");
            assert_eq!(*style, TextStyle::Plain);
        }
        _ => panic!("expected a plain text leaf"),
    }
}

#[test]
fn duplicate_href_attributes_keep_first_seen() {
    let doc = doc_with_leaf(
        "a",
        vec![attr("href", "https://first"), attr("href", "https://second")],
        "go",
    );
    let node = doc.render(false);
    let (_, _, top_children) = expect_container(&node);
    let (_, _, leaf_children) = expect_container(&top_children[0]);
    match &leaf_children[0] {
        VisualNode::Link { href, .. } => assert_eq!(href, "https://first"),
        _ => panic!("expected a link leaf"),
    }
}

#[test]
fn paragraph_with_bold_run_groups_by_parent() {
    // root -> p -> [text "Hello, ", b -> [text "world"]]: one horizontal
    // container holding a plain leaf then a bold leaf nested in the b
    // element's own container.
    let mut sink = Sink::new();
    let root = sink.get_document();
    let p = sink.create_element(tag("p"), Vec::new());
    sink.append(root, ChildEntry::Node(p));
    sink.append(p, ChildEntry::Text("Hello, ".to_string()));
    let b = sink.create_element(tag("b"), Vec::new());
    sink.append(p, ChildEntry::Node(b));
    sink.append(b, ChildEntry::Text("world".to_string()));
    let doc = sink.finish();

    let node = doc.render(false);
    let (root_horizontal, _, top_children) = expect_container(&node);
    assert!(!*root_horizontal);
    assert_eq!(top_children.len(), 1);

    let (p_horizontal, _, p_children) = expect_container(&top_children[0]);
    assert!(*p_horizontal);
    assert_eq!(p_children.len(), 2);

    match &p_children[0] {
        VisualNode::Text { text, style } => {
            assert_eq!(text, "Hello, ");
            assert_eq!(*style, TextStyle::Plain);
        }
        _ => panic!("expected the plain leaf first"),
    }
    let (b_horizontal, _, b_children) = expect_container(&p_children[1]);
    assert!(!*b_horizontal);
    assert_eq!(b_children.len(), 1);
    match &b_children[0] {
        VisualNode::Text { text, style } => {
            assert_eq!(text, "world");
            assert_eq!(*style, TextStyle::Bold);
        }
        _ => panic!("expected the bold leaf"),
    }
}

#[test]
fn framing_labels_containers_with_their_tag() {
    let doc = doc_with_leaf("p", Vec::new(), "x");
    let node = doc.render(true);
    let (_, root_label, top_children) = expect_container(&node);
    assert_eq!(root_label.as_deref(), Some("root"));
    let (_, p_label, _) = expect_container(&top_children[0]);
    assert_eq!(p_label.as_deref(), Some("p"));

    let unframed = doc.render(false);
    let (_, no_label, _) = expect_container(&unframed);
    assert!(no_label.is_none());
}

#[test]
fn text_directly_under_root_still_renders() {
    let mut sink = Sink::new();
    let root = sink.get_document();
    sink.append(root, ChildEntry::Text("bare".to_string()));
    let doc = sink.finish();
    let node = doc.render(false);
    let (_, _, children) = expect_container(&node);
    assert_eq!(children.len(), 1);
    match &children[0] {
        VisualNode::Text { text, style } => {
            assert_eq!(text, "bare");
            assert_eq!(*style, TextStyle::Plain);
        }
        _ => panic!("expected a text leaf"),
    }
}

#[test]
fn child_created_before_parent_still_renders() {
    // The bold element is created before the paragraph that will hold it;
    // the paragraph must still render both leaves, in document order.
    let mut sink = Sink::new();
    let b = sink.create_element(tag("b"), Vec::new());
    sink.append(b, ChildEntry::Text("world".to_string()));
    let p = sink.create_element(tag("p"), Vec::new());
    sink.append(p, ChildEntry::Text("Hello, ".to_string()));
    sink.append(p, ChildEntry::Node(b));
    let root = sink.get_document();
    sink.append(root, ChildEntry::Node(p));
    let doc = sink.finish();

    let node = doc.render(false);
    let (_, _, root_children) = expect_container(&node);
    assert_eq!(root_children.len(), 1);
    let (p_horizontal, _, p_children) = expect_container(&root_children[0]);
    assert!(*p_horizontal);
    assert_eq!(p_children.len(), 2);
    match &p_children[0] {
        VisualNode::Text { text, style } => {
            assert_eq!(text, "Hello, ");
            assert_eq!(*style, TextStyle::Plain);
        }
        _ => panic!("expected the plain leaf first"),
    }
    let (_, _, b_children) = expect_container(&p_children[1]);
    assert_eq!(b_children.len(), 1);
    match &b_children[0] {
        VisualNode::Text { text, style } => {
            assert_eq!(text, "world");
            assert_eq!(*style, TextStyle::Bold);
        }
        _ => panic!("expected the bold leaf"),
    }
}

#[test]
fn shared_child_renders_under_both_parents() {
    // A hand-built arena may append one element under two parents; the
    // renderer shows it in both places rather than dropping either.
    let mut sink = Sink::new();
    let b = sink.create_element(tag("b"), Vec::new());
    sink.append(b, ChildEntry::Text("twice".to_string()));
    let root = sink.get_document();
    sink.append(root, ChildEntry::Node(b));
    sink.append(root, ChildEntry::Node(b));
    let doc = sink.finish();

    let node = doc.render(false);
    let (_, _, root_children) = expect_container(&node);
    assert_eq!(root_children.len(), 2);
    for child in root_children {
        let (_, _, b_children) = expect_container(child);
        match &b_children[0] {
            VisualNode::Text { text, style } => {
                assert_eq!(text, "twice");
                assert_eq!(*style, TextStyle::Bold);
            }
            _ => panic!("expected the bold leaf"),
        }
    }
}

#[test]
fn cyclic_document_renders_without_failing() {
    // A hand-built arena in which an element contains itself: the walk cuts
    // the self-reference off once the fuel (the arena length) is spent,
    // instead of failing. With two elements, the inner occurrence of the
    // paragraph contributes nothing and only its text leaf remains.
    let mut sink = Sink::new();
    let p = sink.create_element(tag("p"), Vec::new());
    sink.append(p, ChildEntry::Text("x".to_string()));
    sink.append(p, ChildEntry::Node(p));
    let root = sink.get_document();
    sink.append(root, ChildEntry::Node(p));
    let doc = sink.finish();

    let node = doc.render(false);
    let (_, _, root_children) = expect_container(&node);
    assert_eq!(root_children.len(), 1);
    let (_, _, p_children) = expect_container(&root_children[0]);
    assert_eq!(p_children.len(), 1);
    match &p_children[0] {
        VisualNode::Text { text, style } => {
            assert_eq!(text, "x");
            assert_eq!(*style, TextStyle::Plain);
        }
        _ => panic!("expected the text leaf"),
    }
}
