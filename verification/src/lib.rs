//! A small document library: an arena-owned element tree built through a
//! streaming tree-construction protocol, and a renderer that turns the
//! finished tree into an abstract visual-presentation tree with tag-driven
//! visibility, pruning, orientation and styling rules.

pub mod dom;

pub use dom::rendering::{TextStyle, VisualNode, VisualNodeView};
pub use dom::sink::Sink;
pub use dom::{Attr, ChildEntry, Document, Element, Handle, TagName};
