//! The tree builder: adapts the streaming tree-construction protocol into
//! the arena-owned document model. Handles are allocated monotonically; the
//! root element exists from the start; appends preserve call order. Protocol
//! operations outside the supported subset are accepted as no-ops.

use crate::dom::{
    Attr, AttrView, ChildEntry, ChildEntryView, Document, Element, ElementView, Handle, TagName,
    TagNameView,
};
use vstd::prelude::*;

verus! {

/// The root element that every document starts from: an html-namespace
/// element tagged `root`, with no attributes and no children.
pub open spec fn root_element_view() -> ElementView {
    ElementView {
        name: TagNameView { ns: "http://www.w3.org/1999/xhtml"@, local: "root"@ },
        attrs: Seq::empty(),
        children: Seq::empty(),
    }
}

/// The arena of a freshly created builder: the root element alone.
pub open spec fn initial_document() -> Seq<ElementView> {
    seq![root_element_view()]
}

/// The element that `create_element` stores: the given tag and attributes,
/// and an empty child sequence.
pub open spec fn created_element(name: TagNameView, attrs: Seq<AttrView>) -> ElementView {
    ElementView { name, attrs, children: Seq::empty() }
}

/// What `append` does to the arena: the entry goes to the end of the
/// parent's child sequence; a parent handle that does not resolve leaves the
/// arena unchanged.
pub open spec fn append_entry(
    d: Seq<ElementView>,
    parent: int,
    entry: ChildEntryView,
) -> Seq<ElementView> {
    if 0 <= parent < d.len() {
        d.update(
            parent,
            ElementView {
                name: d[parent].name,
                attrs: d[parent].attrs,
                children: d[parent].children.push(entry),
            },
        )
    } else {
        d
    }
}

/// The tree builder. It owns the arena while the streaming build phase runs;
/// `finish` seals the arena into an immutable `Document`.
pub struct Sink {
    pub document: Document,
}

impl View for Sink {
    type V = Seq<ElementView>;

    open spec fn view(&self) -> Seq<ElementView> {
        self.document@
    }
}

impl Sink {
    /// A fresh builder: the arena holds exactly the root element.
    pub fn new() -> (s: Sink)
        ensures
            s@ == initial_document(),
    {
        let root = Element {
            name: TagName {
                ns: "http://www.w3.org/1999/xhtml".to_owned(),
                local: "root".to_owned(),
            },
            attrs: Vec::new(),
            children: Vec::new(),
        };
        let mut elements: Vec<Element> = Vec::new();
        elements.push(root);
        let s = Sink { document: Document { elements } };
        proof {
            assert(s@ =~~= initial_document());
        }
        s
    }

    /// Allocates a fresh handle, strictly greater than every handle
    /// allocated before it, and stores a new element with the given tag and
    /// attributes and an empty child sequence. Never fails.
    pub fn create_element(&mut self, name: TagName, attrs: Vec<Attr>) -> (h: Handle)
        ensures
            h@ == old(self)@.len(),
            final(self)@ == old(self)@.push(
                created_element(name@, attrs@.map_values(|a: Attr| a@)),
            ),
    {
        let h = Handle::from_index(self.document.elements.len());
        let ghost name_v = name@;
        let ghost attrs_v = attrs@.map_values(|a: Attr| a@);
        self.document.elements.push(Element { name, attrs, children: Vec::new() });
        proof {
            assert(self@ =~~= old(self)@.push(created_element(name_v, attrs_v)));
        }
        h
    }

    /// Appends the child entry to the parent's child sequence, preserving
    /// call order. A parent handle that does not resolve makes the call a
    /// silent no-op.
    pub fn append(&mut self, parent: Handle, child: ChildEntry)
        ensures
            final(self)@ == append_entry(old(self)@, parent@, child@),
    {
        let ghost child_v = child@;
        let i = parent.index();
        if i < self.document.elements.len() {
            self.document.elements[i].children.push(child);
            proof {
                assert(self@ =~~= append_entry(old(self)@, parent@, child_v));
            }
        }
    }

    /// Looks up the qualified tag name of the element a handle resolves to.
    /// A handle that does not resolve yields `None`, never a panic.
    pub fn elem_name(&self, target: &Handle) -> (r: Option<&TagName>)
        ensures
            match r {
                Some(n) => target@ < self@.len() && n@ == self@[target@].name,
                None => target@ >= self@.len(),
            },
    {
        let i = target.index();
        if i < self.document.elements.len() {
            Some(&self.document.elements[i].name)
        } else {
            None
        }
    }

    /// Structural equality on handle values.
    pub fn same_node(&self, x: &Handle, y: &Handle) -> (r: bool)
        ensures
            r == (x@ == y@),
    {
        proof {
            crate::dom::lemma_handle_eq_is_view_eq(*x, *y);
        }
        x == y
    }

    /// The reserved root handle; always succeeds, callable repeatedly.
    pub fn get_document(&mut self) -> (h: Handle)
        ensures
            h@ == 0,
            final(self)@ == old(self)@,
    {
        Handle::root()
    }

    /// Consumes the builder and returns the completed, now-immutable
    /// document.
    pub fn finish(self) -> (d: Document)
        ensures
            d@ == self@,
    {
        self.document
    }

    /// Template contents are outside the supported protocol subset: the
    /// call is accepted and answered with the sentinel handle.
    pub fn get_template_contents(&mut self, _target: &Handle) -> (h: Handle)
        ensures
            h@ == usize::MAX,
            final(self)@ == old(self)@,
    {
        Handle::sentinel()
    }

    /// Comment nodes are outside the supported protocol subset: the call is
    /// accepted, stores nothing, and answers with the sentinel handle.
    pub fn create_comment(&mut self, _text: &str) -> (h: Handle)
        ensures
            h@ == usize::MAX,
            final(self)@ == old(self)@,
    {
        Handle::sentinel()
    }

    /// Processing instructions are outside the supported protocol subset:
    /// the call is accepted, stores nothing, and answers with the sentinel
    /// handle.
    pub fn create_pi(&mut self, _target: &str, _data: &str) -> (h: Handle)
        ensures
            h@ == usize::MAX,
            final(self)@ == old(self)@,
    {
        Handle::sentinel()
    }

    /// Sibling-relative insertion is outside the supported protocol subset:
    /// the call is accepted and performs no mutation.
    pub fn append_before_sibling(&mut self, _sibling: &Handle, _child: ChildEntry)
        ensures
            final(self)@ == old(self)@,
    {
    }

    /// Parent-based conditional append is outside the supported protocol
    /// subset: the call is accepted and performs no mutation.
    pub fn append_based_on_parent_node(
        &mut self,
        _element: &Handle,
        _prev_element: &Handle,
        _child: ChildEntry,
    )
        ensures
            final(self)@ == old(self)@,
    {
    }

    /// Malformed-markup signals are accepted and discarded: the build never
    /// aborts on malformed input.
    pub fn parse_error(&mut self, _msg: &str)
        ensures
            final(self)@ == old(self)@,
    {
    }

    /// Quirks-mode reports are accepted and discarded.
    pub fn set_quirks_mode(&mut self)
        ensures
            final(self)@ == old(self)@,
    {
    }

    /// Doctype declarations are outside the supported protocol subset: the
    /// call is accepted and performs no mutation.
    pub fn append_doctype_to_document(&mut self, _name: &str, _public_id: &str, _system_id: &str)
        ensures
            final(self)@ == old(self)@,
    {
    }

    /// Attribute addition after creation is outside the supported protocol
    /// subset: the call is accepted and performs no mutation.
    pub fn add_attrs_if_missing(&mut self, _target: &Handle, _attrs: Vec<Attr>)
        ensures
            final(self)@ == old(self)@,
    {
    }

    /// Removal is outside the supported protocol subset: the call is
    /// accepted and performs no mutation.
    pub fn remove_from_parent(&mut self, _target: &Handle)
        ensures
            final(self)@ == old(self)@,
    {
    }

    /// Reparenting is outside the supported protocol subset: the call is
    /// accepted and performs no mutation.
    pub fn reparent_children(&mut self, _node: &Handle, _new_parent: &Handle)
        ensures
            final(self)@ == old(self)@,
    {
    }

    /// Script-started marks are accepted and discarded.
    pub fn mark_script_already_started(&mut self, _node: &Handle)
        ensures
            final(self)@ == old(self)@,
    {
    }
}

} // verus!
