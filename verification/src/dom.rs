//! The document data model: handles, elements, child entries and the
//! arena-owned document tree.

pub mod laws;
pub mod rendering;
pub mod sink;

use vstd::prelude::*;

verus! {

/// Identifier of a tree node: an index into the document's arena.
///
/// Handles are assigned monotonically by the tree builder, starting at the
/// reserved root value. A reserved sentinel value (the largest index, which
/// never resolves to an element) denotes "no such node".
#[derive(Clone, Copy, PartialEq, Eq, Hash, Debug, Structural)]
pub struct Handle {
    id: usize,
}

impl View for Handle {
    type V = int;

    closed spec fn view(&self) -> int {
        self.id as int
    }
}

impl Handle {
    /// The reserved root handle: the index of the root element.
    pub fn root() -> (h: Handle)
        ensures
            h@ == 0,
    {
        Handle { id: 0 }
    }

    /// The reserved sentinel handle, which never resolves to an element.
    pub fn sentinel() -> (h: Handle)
        ensures
            h@ == usize::MAX,
    {
        Handle { id: usize::MAX }
    }

    pub(crate) fn from_index(i: usize) -> (h: Handle)
        ensures
            h@ == i,
    {
        Handle { id: i }
    }

    pub(crate) fn index(&self) -> (i: usize)
        ensures
            i == self@,
    {
        self.id
    }
}

/// Two handles are equal exactly when they stand for the same index.
pub proof fn lemma_handle_eq_is_view_eq(x: Handle, y: Handle)
    ensures
        (x == y) <==> (x@ == y@),
{
}

/// A qualified tag name: namespace plus local name.
pub struct TagName {
    pub ns: String,
    pub local: String,
}

/// Mathematical value of a `TagName`.
#[verifier::ext_equal]
pub struct TagNameView {
    pub ns: Seq<char>,
    pub local: Seq<char>,
}

impl View for TagName {
    type V = TagNameView;

    open spec fn view(&self) -> TagNameView {
        TagNameView { ns: self.ns@, local: self.local@ }
    }
}

/// One attribute of an element: a name and a value.
pub struct Attr {
    pub name: String,
    pub value: String,
}

/// Mathematical value of an `Attr`.
#[verifier::ext_equal]
pub struct AttrView {
    pub name: Seq<char>,
    pub value: Seq<char>,
}

impl View for Attr {
    type V = AttrView;

    open spec fn view(&self) -> AttrView {
        AttrView { name: self.name@, value: self.value@ }
    }
}

/// One entry in an element's ordered child sequence: either a reference to a
/// child element by handle, or an inline text run. Order is document order.
pub enum ChildEntry {
    Node(Handle),
    Text(String),
}

/// Mathematical value of a `ChildEntry`: the handle as an integer, or the
/// text as a character sequence.
#[verifier::ext_equal]
pub enum ChildEntryView {
    Node(int),
    Text(Seq<char>),
}

impl View for ChildEntry {
    type V = ChildEntryView;

    open spec fn view(&self) -> ChildEntryView {
        match self {
            ChildEntry::Node(h) => ChildEntryView::Node(h@),
            ChildEntry::Text(t) => ChildEntryView::Text(t@),
        }
    }
}

/// An element: a qualified tag name, an ordered attribute list, and an
/// ordered sequence of child entries.
pub struct Element {
    pub name: TagName,
    pub attrs: Vec<Attr>,
    pub children: Vec<ChildEntry>,
}

/// Mathematical value of an `Element`.
#[verifier::ext_equal]
pub struct ElementView {
    pub name: TagNameView,
    pub attrs: Seq<AttrView>,
    pub children: Seq<ChildEntryView>,
}

impl View for Element {
    type V = ElementView;

    open spec fn view(&self) -> ElementView {
        ElementView {
            name: self.name@,
            attrs: self.attrs@.map_values(|a: Attr| a@),
            children: self.children@.map_values(|c: ChildEntry| c@),
        }
    }
}

/// A finished document: the arena of elements, indexed by handle. The root
/// element sits at the reserved root handle.
pub struct Document {
    pub elements: Vec<Element>,
}

impl View for Document {
    type V = Seq<ElementView>;

    open spec fn view(&self) -> Seq<ElementView> {
        self.elements@.map_values(|e: Element| e@)
    }
}

impl Document {
    /// Looks an element up by handle. A handle that does not resolve (the
    /// sentinel, or any index outside the arena) yields `None`, never a
    /// panic.
    pub fn get(&self, h: Handle) -> (r: Option<&Element>)
        ensures
            match r {
                Some(e) => h@ < self@.len() && e@ == self@[h@],
                None => h@ >= self@.len(),
            },
    {
        if h.id < self.elements.len() {
            Some(&self.elements[h.id])
        } else {
            None
        }
    }

    /// The number of elements in the arena.
    pub fn len(&self) -> (n: usize)
        ensures
            n == self@.len(),
    {
        self.elements.len()
    }
}

} // verus!
