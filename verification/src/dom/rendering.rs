//! The renderer: a depth-first, pre-order walk of a finished document that
//! produces an abstract visual-presentation tree. Non-renderable regions are
//! never entered; a container is emitted only if it holds visible content;
//! paragraph-like tags stack horizontally; text leaves are styled by the tag
//! of their immediate parent; anchor elements with an `href` attribute become
//! link leaves.
//!
//! Every child entry whose handle resolves is rendered, whatever the order
//! the elements were created in. The walk carries a fuel bound — the arena
//! length, spent one unit per level — so it terminates on any document: in an
//! acyclic arena a recursion path visits distinct elements, so the bound is
//! never exhausted and every element renders fully; only a degenerate,
//! hand-built cyclic arena is cut off when the fuel runs out.

use crate::dom::{Attr, AttrView, ChildEntry, ChildEntryView, Document, Element, ElementView,
    Handle};
use vstd::prelude::*;

verus! {

broadcast use vstd::std_specs::vec::group_vec_axioms;

/// Styling applied to a text leaf, determined by the tag of its immediate
/// parent element.
#[derive(Clone, Copy, PartialEq, Eq, Debug, Structural)]
pub enum TextStyle {
    Plain,
    Scale(u32),
    Bold,
    Italic,
}

/// An abstract visual-presentation node.
pub enum VisualNode {
    Container { horizontal: bool, frame_label: Option<String>, children: Vec<VisualNode> },
    Text { text: String, style: TextStyle },
    Link { href: String, text: String },
}

/// Mathematical value of a `VisualNode`.
#[verifier::ext_equal]
pub enum VisualNodeView {
    Container { horizontal: bool, frame_label: Option<Seq<char>>, children: Seq<VisualNodeView> },
    Text { text: Seq<char>, style: TextStyle },
    Link { href: Seq<char>, text: Seq<char> },
}

pub open spec fn vnode_view(n: VisualNode) -> VisualNodeView
    decreases n,
{
    match n {
        VisualNode::Text { text, style } => VisualNodeView::Text { text: text@, style },
        VisualNode::Link { href, text } => VisualNodeView::Link { href: href@, text: text@ },
        VisualNode::Container { horizontal, frame_label, children } => VisualNodeView::Container {
            horizontal,
            frame_label: match frame_label {
                Some(s) => Some(s@),
                None => None,
            },
            children: vnode_views(children@),
        },
    }
}

/// Mathematical values of a sequence of visual nodes, in order.
pub open spec fn vnode_views(s: Seq<VisualNode>) -> Seq<VisualNodeView>
    decreases s,
{
    if s.len() == 0 {
        Seq::empty()
    } else {
        vnode_views(s.drop_last()).push(vnode_view(s.last()))
    }
}

impl View for VisualNode {
    type V = VisualNodeView;

    open spec fn view(&self) -> VisualNodeView {
        vnode_view(*self)
    }
}

pub open spec fn opt_vnode_view(r: Option<VisualNode>) -> Option<VisualNodeView> {
    match r {
        Some(n) => Some(vnode_view(n)),
        None => None,
    }
}

proof fn lemma_vnode_views_push(s: Seq<VisualNode>, x: VisualNode)
    ensures
        vnode_views(s.push(x)) == vnode_views(s).push(vnode_view(x)),
{
    assert(s.push(x).drop_last() =~= s);
    assert(s.push(x).last() == x);
}

proof fn lemma_vnode_views_len(s: Seq<VisualNode>)
    ensures
        vnode_views(s).len() == s.len(),
    decreases s.len(),
{
    if s.len() > 0 {
        lemma_vnode_views_len(s.drop_last());
    }
}

/// A tag that identifies a non-renderable region: such an element is never
/// entered and contributes no visual node.
pub open spec fn invisible(tag: Seq<char>) -> bool {
    tag == "head"@ || tag == "script"@ || tag == "style"@
}

/// The pure tag-to-style mapping applied to text leaves: headings carry a
/// font scale, emphasis tags carry bold or italic, any other tag carries no
/// override.
pub open spec fn style_of(tag: Seq<char>) -> TextStyle {
    if tag == "i"@ || tag == "em"@ {
        TextStyle::Italic
    } else if tag == "b"@ || tag == "strong"@ {
        TextStyle::Bold
    } else if tag == "h1"@ {
        TextStyle::Scale(32)
    } else if tag == "h2"@ {
        TextStyle::Scale(24)
    } else if tag == "h3"@ {
        TextStyle::Scale(19)
    } else if tag == "h4"@ {
        TextStyle::Scale(16)
    } else if tag == "h5"@ {
        TextStyle::Scale(13)
    } else if tag == "h6"@ {
        TextStyle::Scale(11)
    } else {
        TextStyle::Plain
    }
}

/// The value of the first attribute named `href`, if any: duplicates keep
/// the first-seen value.
pub open spec fn first_href(attrs: Seq<AttrView>) -> Option<Seq<char>>
    decreases attrs.len(),
{
    if attrs.len() == 0 {
        None
    } else if attrs[0].name == "href"@ {
        Some(attrs[0].value)
    } else {
        first_href(attrs.drop_first())
    }
}

/// The leaf a text run becomes under its immediate parent: an anchor element
/// with an `href` attribute makes an actionable link leaf carrying the href
/// and the display text; anything else makes a plain text leaf styled by the
/// parent's tag.
pub open spec fn text_leaf(elem: ElementView, text: Seq<char>) -> VisualNodeView {
    if elem.name.local == "a"@ {
        match first_href(elem.attrs) {
            Some(href) => VisualNodeView::Link { href, text },
            None => VisualNodeView::Text { text, style: style_of(elem.name.local) },
        }
    } else {
        VisualNodeView::Text { text, style: style_of(elem.name.local) }
    }
}

/// The visual nodes the given child entries of `elem` produce, in document
/// order: every node entry contributes its element's rendering whenever that
/// yields content (a handle that does not resolve yields nothing), and a
/// text entry always contributes a leaf. Entries that produce nothing are
/// skipped with no gap or placeholder.
pub open spec fn render_entries(
    d: Seq<ElementView>,
    elem: ElementView,
    entries: Seq<ChildEntryView>,
    frame: bool,
    fuel: nat,
) -> Seq<VisualNodeView>
    decreases fuel, entries.len(),
{
    if entries.len() == 0 {
        Seq::empty()
    } else {
        let init = render_entries(d, elem, entries.drop_last(), frame, fuel);
        match entries.last() {
            ChildEntryView::Node(c) => match render_node(d, c, frame, fuel) {
                Some(n) => init.push(n),
                None => init,
            },
            ChildEntryView::Text(t) => init.push(text_leaf(elem, t)),
        }
    }
}

/// The visual node the element at `h` produces, if any: nothing for a handle
/// that does not resolve, nothing for a non-renderable tag, nothing for an
/// element none of whose entries produced content, nothing when the fuel is
/// exhausted (which happens only beyond arena-length depth, i.e. only inside
/// a cyclic arena), and otherwise a container of the children's nodes,
/// stacked horizontally for paragraph tags and labelled with the tag when
/// framing is on.
pub open spec fn render_node(d: Seq<ElementView>, h: int, frame: bool, fuel: nat) -> Option<
    VisualNodeView,
>
    decreases fuel, 0int,
{
    if fuel == 0 {
        None
    } else if h < 0 || h >= d.len() {
        None
    } else {
        let elem = d[h];
        if invisible(elem.name.local) {
            None
        } else {
            let kids = render_entries(d, elem, elem.children, frame, (fuel - 1) as nat);
            if kids.len() == 0 {
                None
            } else {
                Some(
                    VisualNodeView::Container {
                        horizontal: elem.name.local == "p"@,
                        frame_label: if frame {
                            Some(elem.name.local)
                        } else {
                            None
                        },
                        children: kids,
                    },
                )
            }
        }
    }
}

/// What rendering one element of a document yields: the walk starts with the
/// arena length as fuel, which a recursion path through distinct elements
/// never exhausts.
pub open spec fn render_elem(d: Seq<ElementView>, h: int, frame: bool) -> Option<VisualNodeView> {
    render_node(d, h, frame, d.len())
}

/// What rendering a whole document yields: the root element's visual node,
/// or a well-defined empty container when the document renders to nothing.
pub open spec fn render_doc(d: Seq<ElementView>, frame: bool) -> VisualNodeView {
    match render_elem(d, 0, frame) {
        Some(n) => n,
        None => VisualNodeView::Container {
            horizontal: false,
            frame_label: None,
            children: Seq::empty(),
        },
    }
}

/// Equality of a string against a literal, stated over views.
fn str_eq(a: &String, b: &str) -> (r: bool)
    ensures
        r == (a@ == b@),
{
    let owned = b.to_owned();
    *a == owned
}

/// Whether the tag identifies a non-renderable region.
fn is_invisible(tag: &String) -> (r: bool)
    ensures
        r == invisible(tag@),
{
    str_eq(tag, "head") || str_eq(tag, "script") || str_eq(tag, "style")
}

/// The style a text leaf carries under a parent with this tag.
fn style_for(tag: &String) -> (r: TextStyle)
    ensures
        r == style_of(tag@),
{
    if str_eq(tag, "i") || str_eq(tag, "em") {
        TextStyle::Italic
    } else if str_eq(tag, "b") || str_eq(tag, "strong") {
        TextStyle::Bold
    } else if str_eq(tag, "h1") {
        TextStyle::Scale(32)
    } else if str_eq(tag, "h2") {
        TextStyle::Scale(24)
    } else if str_eq(tag, "h3") {
        TextStyle::Scale(19)
    } else if str_eq(tag, "h4") {
        TextStyle::Scale(16)
    } else if str_eq(tag, "h5") {
        TextStyle::Scale(13)
    } else if str_eq(tag, "h6") {
        TextStyle::Scale(11)
    } else {
        TextStyle::Plain
    }
}

/// The value of the first attribute named `href`, if any.
fn find_href(attrs: &Vec<Attr>) -> (r: Option<&String>)
    ensures
        match r {
            Some(v) => first_href(attrs@.map_values(|a: Attr| a@)) == Some(v@),
            None => first_href(attrs@.map_values(|a: Attr| a@)) is None,
        },
{
    let ghost av = attrs@.map_values(|a: Attr| a@);
    assert(av.skip(0) =~= av);
    let n = attrs.len();
    for k in 0..n
        invariant
            n == attrs.len(),
            av == attrs@.map_values(|a: Attr| a@),
            first_href(av) == first_href(av.skip(k as int)),
    {
        if str_eq(&attrs[k].name, "href") {
            assert(av.skip(k as int)[0] == av[k as int]);
            return Some(&attrs[k].value);
        }
        proof {
            assert(av.skip(k as int)[0] == av[k as int]);
            assert(av.skip(k as int).drop_first() =~= av.skip(k as int + 1));
        }
    }
    None
}

/// The leaf a text run becomes under its immediate parent element.
fn render_text(elem: &Element, text: &String) -> (r: VisualNode)
    ensures
        r@ == text_leaf(elem@, text@),
{
    if str_eq(&elem.name.local, "a") {
        match find_href(&elem.attrs) {
            Some(href) => {
                return VisualNode::Link { href: href.clone(), text: text.clone() };
            },
            None => {},
        }
    }
    VisualNode::Text { text: text.clone(), style: style_for(&elem.name.local) }
}

impl Element {
    /// Renders the element the handle resolves to, depth-first and in
    /// document order, yielding `None` when the element contributes no
    /// visual content and never panicking, whatever the document holds.
    pub fn render(document: &Document, handle: Handle, frame: bool) -> (r: Option<VisualNode>)
        ensures
            opt_vnode_view(r) == render_elem(document@, handle@, frame),
    {
        let fuel = document.elements.len();
        Element::render_with_fuel(document, handle, frame, fuel)
    }

    fn render_with_fuel(document: &Document, handle: Handle, frame: bool, fuel: usize) -> (r:
        Option<VisualNode>)
        ensures
            opt_vnode_view(r) == render_node(document@, handle@, frame, fuel as nat),
        decreases fuel,
    {
        if fuel == 0 {
            return None;
        }
        let i = handle.index();
        if i >= document.elements.len() {
            return None;
        }
        let elem = &document.elements[i];
        if is_invisible(&elem.name.local) {
            return None;
        }
        let next_fuel = fuel - 1;
        let ghost dv = document@;
        let ghost ev = elem@;
        let mut kids: Vec<VisualNode> = Vec::new();
        let n = elem.children.len();
        assert(vnode_views(kids@) =~= render_entries(
            dv,
            ev,
            ev.children.take(0),
            frame,
            next_fuel as nat,
        ));
        for k in 0..n
            invariant
                dv == document@,
                0 <= handle@ < dv.len(),
                i == handle@,
                i < document.elements.len(),
                next_fuel < fuel,
                elem == &document.elements[i as int],
                ev == dv[handle@],
                n == ev.children.len(),
                vnode_views(kids@) == render_entries(
                    dv,
                    ev,
                    ev.children.take(k as int),
                    frame,
                    next_fuel as nat,
                ),
        {
            let ghost kids_before = kids@;
            let ghost taken = ev.children.take(k as int);
            match &elem.children[k] {
                ChildEntry::Node(c) => {
                    match Element::render_with_fuel(document, *c, frame, next_fuel) {
                        Some(node) => {
                            proof {
                                lemma_vnode_views_push(kids_before, node);
                            }
                            kids.push(node);
                        },
                        None => {},
                    }
                },
                ChildEntry::Text(t) => {
                    let leaf = render_text(elem, t);
                    proof {
                        lemma_vnode_views_push(kids_before, leaf);
                    }
                    kids.push(leaf);
                },
            }
            proof {
                assert(ev.children.take(k as int + 1).drop_last() =~= taken);
                assert(ev.children.take(k as int + 1).last() == ev.children[k as int]);
            }
        }
        proof {
            assert(ev.children.take(n as int) =~= ev.children);
            lemma_vnode_views_len(kids@);
        }
        if kids.len() == 0 {
            None
        } else {
            Some(
                VisualNode::Container {
                    horizontal: str_eq(&elem.name.local, "p"),
                    frame_label: if frame {
                        Some(elem.name.local.clone())
                    } else {
                        None
                    },
                    children: kids,
                },
            )
        }
    }
}

impl Document {
    /// Renders the whole document, starting at the root handle. A document
    /// that renders to nothing still yields a well-defined empty container,
    /// so the caller always has something to attach.
    pub fn render(&self, frame: bool) -> (r: VisualNode)
        ensures
            r@ == render_doc(self@, frame),
    {
        match Element::render(self, Handle::root(), frame) {
            Some(n) => n,
            None => VisualNode::Container {
                horizontal: false,
                frame_label: None,
                children: Vec::new(),
            },
        }
    }
}

/// Invisibility pruning: an element whose tag identifies a non-renderable
/// region yields no visual node at all — its subtree is never entered, so
/// none of its descendants contributes content either.
pub proof fn lemma_invisible_pruned(d: Seq<ElementView>, h: int, frame: bool, fuel: nat)
    requires
        0 <= h < d.len(),
        invisible(d[h].name.local),
    ensures
        render_node(d, h, frame, fuel) is None,
{
}

/// Pruning never emits an empty container: whenever rendering an element
/// yields a visual node, that node is a container holding at least one
/// child.
pub proof fn lemma_no_empty_container(d: Seq<ElementView>, h: int, frame: bool, fuel: nat)
    ensures
        match render_node(d, h, frame, fuel) {
            Some(VisualNodeView::Container { children, .. }) => children.len() >= 1,
            Some(_) => false,
            None => true,
        },
{
}

/// A child entry that contributes content: a text entry always does; a node
/// entry does exactly when the element its handle resolves to renders to a
/// visual node.
pub open spec fn entry_yields_content(
    d: Seq<ElementView>,
    entry: ChildEntryView,
    frame: bool,
    fuel: nat,
) -> bool {
    match entry {
        ChildEntryView::Node(c) => render_node(d, c, frame, fuel) is Some,
        ChildEntryView::Text(_) => true,
    }
}

proof fn lemma_entries_content(
    d: Seq<ElementView>,
    elem: ElementView,
    entries: Seq<ChildEntryView>,
    frame: bool,
    fuel: nat,
)
    ensures
        render_entries(d, elem, entries, frame, fuel).len() > 0 <==> exists|j: int|
            0 <= j < entries.len() && #[trigger] entry_yields_content(d, entries[j], frame, fuel),
    decreases entries.len(),
{
    if entries.len() > 0 {
        lemma_entries_content(d, elem, entries.drop_last(), frame, fuel);
        let last = entries.len() - 1;
        if entry_yields_content(d, entries[last], frame, fuel) {
            assert(render_entries(d, elem, entries, frame, fuel).len() > 0);
        } else {
            assert(render_entries(d, elem, entries, frame, fuel) == render_entries(
                d,
                elem,
                entries.drop_last(),
                frame,
                fuel,
            ));
            assert forall|j: int|
                0 <= j < entries.len() && #[trigger] entry_yields_content(
                    d,
                    entries[j],
                    frame,
                    fuel,
                ) implies render_entries(d, elem, entries, frame, fuel).len() > 0 by {
                assert(j < last);
                assert(entries.drop_last()[j] == entries[j]);
            }
        }
    }
}

/// The contains-something rule, both ways: an element renders to a visual
/// node exactly when its handle resolves within the fuel bound, its tag is
/// renderable, and at least one child entry produced content — a text leaf,
/// or a node entry whose element itself rendered to something.
pub proof fn lemma_container_iff_content(d: Seq<ElementView>, h: int, frame: bool, fuel: nat)
    ensures
        render_node(d, h, frame, fuel) is Some <==> (fuel > 0 && 0 <= h < d.len() && !invisible(
            d[h].name.local,
        ) && exists|j: int|
            0 <= j < d[h].children.len() && #[trigger] entry_yields_content(
                d,
                d[h].children[j],
                frame,
                (fuel - 1) as nat,
            )),
{
    if fuel > 0 && 0 <= h < d.len() && !invisible(d[h].name.local) {
        lemma_entries_content(d, d[h], d[h].children, frame, (fuel - 1) as nat);
    }
}

/// Empty-content pruning: an element none of whose child entries produces
/// content — in particular one holding only node entries whose elements all
/// render to nothing — yields no visual node itself, never an empty
/// container.
pub proof fn lemma_empty_content_pruned(d: Seq<ElementView>, h: int, frame: bool, fuel: nat)
    requires
        0 <= h < d.len(),
        forall|j: int|
            0 <= j < d[h].children.len() ==> !#[trigger] entry_yields_content(
                d,
                d[h].children[j],
                frame,
                (fuel - 1) as nat,
            ),
    ensures
        render_node(d, h, frame, fuel) is None,
{
    lemma_container_iff_content(d, h, frame, fuel);
}

} // verus!
