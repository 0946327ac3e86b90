//! Laws of the streaming build: a model of the call sequences the external
//! parsing engine makes against the builder, the discipline those calls
//! follow in the supported protocol subset, and proofs that any such build
//! yields a strict tree whose child sequences mirror call order.

use crate::dom::sink::{append_entry, created_element, initial_document};
use crate::dom::{AttrView, ChildEntryView, ElementView, TagNameView};
use vstd::prelude::*;

verus! {

/// One mutating call of the streaming build phase: an element creation or an
/// append of a child entry to a parent.
pub enum BuildOp {
    Create { name: TagNameView, attrs: Seq<AttrView> },
    Append { parent: int, entry: ChildEntryView },
}

/// The arena after one build call, exactly as the builder's contracts state
/// it.
pub open spec fn apply_op(d: Seq<ElementView>, op: BuildOp) -> Seq<ElementView> {
    match op {
        BuildOp::Create { name, attrs } => d.push(created_element(name, attrs)),
        BuildOp::Append { parent, entry } => append_entry(d, parent, entry),
    }
}

/// The arena after a sequence of build calls, applied in order.
pub open spec fn apply_ops(d: Seq<ElementView>, ops: Seq<BuildOp>) -> Seq<ElementView>
    decreases ops.len(),
{
    if ops.len() == 0 {
        d
    } else {
        apply_ops(apply_op(d, ops[0]), ops.drop_first())
    }
}

/// The handle `h` already occurs as a node entry of some parent.
pub open spec fn has_parent(d: Seq<ElementView>, h: int) -> bool {
    exists|i: int, j: int|
        0 <= i < d.len() && 0 <= j < d[i].children.len() && d[i].children[j]
            == ChildEntryView::Node(h)
}

/// The weakest demand a single build call can make: the parent handle of an
/// append already exists.
pub open spec fn parent_resolves(d: Seq<ElementView>, op: BuildOp) -> bool {
    match op {
        BuildOp::Create { .. } => true,
        BuildOp::Append { parent, .. } => 0 <= parent < d.len(),
    }
}

/// Every append in the sequence finds its parent in the arena of its moment.
pub open spec fn ops_parents_resolve(d: Seq<ElementView>, ops: Seq<BuildOp>) -> bool
    decreases ops.len(),
{
    ops.len() == 0 || (parent_resolves(d, ops[0]) && ops_parents_resolve(
        apply_op(d, ops[0]),
        ops.drop_first(),
    ))
}

/// The discipline the streaming protocol follows in the supported subset:
/// the parent of an append exists, and a node entry references an element
/// that exists, was created after its parent, and has no parent yet.
pub open spec fn op_valid(d: Seq<ElementView>, op: BuildOp) -> bool {
    match op {
        BuildOp::Create { .. } => true,
        BuildOp::Append { parent, entry } => 0 <= parent < d.len() && match entry {
            ChildEntryView::Node(h) => parent < h < d.len() && !has_parent(d, h),
            ChildEntryView::Text(_) => true,
        },
    }
}

/// Every call in the sequence follows the protocol discipline in the arena
/// of its moment.
pub open spec fn ops_valid(d: Seq<ElementView>, ops: Seq<BuildOp>) -> bool
    decreases ops.len(),
{
    ops.len() == 0 || (op_valid(d, ops[0]) && ops_valid(apply_op(d, ops[0]), ops.drop_first()))
}

/// The child entry at position `j` of element `i` references only an element
/// that exists and whose handle is greater than `i`.
pub open spec fn links_forward(d: Seq<ElementView>, i: int, j: int) -> bool {
    match d[i].children[j] {
        ChildEntryView::Node(h) => i < h < d.len(),
        ChildEntryView::Text(_) => true,
    }
}

/// The arena is a strict tree: the root exists; every node entry references
/// an existing element created after its parent (so no element is its own
/// ancestor, and the root is never a child); and no handle occurs as a node
/// entry in two places (every non-root element has at most one parent).
pub open spec fn is_tree(d: Seq<ElementView>) -> bool {
    &&& d.len() >= 1
    &&& forall|i: int, j: int|
        0 <= i < d.len() && 0 <= j < d[i].children.len() ==> #[trigger] links_forward(d, i, j)
    &&& forall|i1: int, j1: int, i2: int, j2: int|
        #![trigger d[i1].children[j1], d[i2].children[j2]]
        0 <= i1 < d.len() && 0 <= j1 < d[i1].children.len() && 0 <= i2 < d.len() && 0 <= j2
            < d[i2].children.len() && d[i1].children[j1] is Node && d[i1].children[j1]
            == d[i2].children[j2] ==> i1 == i2 && j1 == j2
}

/// A fresh builder's arena is a strict tree.
pub proof fn lemma_initial_is_tree()
    ensures
        is_tree(initial_document()),
{
    let d = initial_document();
    assert(d.len() == 1);
    assert(d[0].children.len() == 0);
}

/// One build call that follows the protocol discipline keeps the arena a
/// strict tree.
pub proof fn lemma_op_preserves_tree(d: Seq<ElementView>, op: BuildOp)
    requires
        is_tree(d),
        op_valid(d, op),
    ensures
        is_tree(apply_op(d, op)),
{
    let d2 = apply_op(d, op);
    match op {
        BuildOp::Create { name, attrs } => {
            assert forall|i: int, j: int|
                0 <= i < d2.len() && 0 <= j < d2[i].children.len() implies #[trigger] links_forward(
                d2,
                i,
                j,
            ) by {
                if i < d.len() {
                    assert(d2[i] == d[i]);
                    assert(links_forward(d, i, j));
                } else {
                    assert(d2[i].children.len() == 0);
                }
            }
            assert forall|i1: int, j1: int, i2: int, j2: int|
                #![trigger d2[i1].children[j1], d2[i2].children[j2]]
                0 <= i1 < d2.len() && 0 <= j1 < d2[i1].children.len() && 0 <= i2 < d2.len() && 0
                    <= j2 < d2[i2].children.len() && d2[i1].children[j1] is Node
                    && d2[i1].children[j1] == d2[i2].children[j2] implies i1 == i2 && j1 == j2 by {
                assert(i1 < d.len() && i2 < d.len());
                assert(d2[i1] == d[i1] && d2[i2] == d[i2]);
            }
        },
        BuildOp::Append { parent, entry } => {
            assert forall|i: int, j: int|
                0 <= i < d2.len() && 0 <= j < d2[i].children.len() implies #[trigger] links_forward(
                d2,
                i,
                j,
            ) by {
                if i == parent && j == d[parent].children.len() {
                    assert(d2[i].children[j] == entry);
                } else {
                    assert(d2[i].children[j] == d[i].children[j]);
                    assert(links_forward(d, i, j));
                }
            }
            assert forall|i1: int, j1: int, i2: int, j2: int|
                #![trigger d2[i1].children[j1], d2[i2].children[j2]]
                0 <= i1 < d2.len() && 0 <= j1 < d2[i1].children.len() && 0 <= i2 < d2.len() && 0
                    <= j2 < d2[i2].children.len() && d2[i1].children[j1] is Node
                    && d2[i1].children[j1] == d2[i2].children[j2] implies i1 == i2 && j1 == j2 by {
                let newj = d[parent].children.len() as int;
                if i1 == parent && j1 == newj {
                    assert(d2[i1].children[j1] == entry);
                    if !(i2 == parent && j2 == newj) {
                        assert(d2[i2].children[j2] == d[i2].children[j2]);
                        match entry {
                            ChildEntryView::Node(h) => {
                                assert(has_parent(d, h));
                            },
                            ChildEntryView::Text(_) => {},
                        }
                    }
                } else if i2 == parent && j2 == newj {
                    assert(d2[i2].children[j2] == entry);
                    assert(d2[i1].children[j1] == d[i1].children[j1]);
                    match entry {
                        ChildEntryView::Node(h) => {
                            assert(has_parent(d, h));
                        },
                        ChildEntryView::Text(_) => {},
                    }
                } else {
                    assert(d2[i1].children[j1] == d[i1].children[j1]);
                    assert(d2[i2].children[j2] == d[i2].children[j2]);
                }
            }
        },
    }
}

/// A build-call sequence that follows the protocol discipline keeps the
/// arena a strict tree.
pub proof fn lemma_ops_preserve_tree(d: Seq<ElementView>, ops: Seq<BuildOp>)
    requires
        is_tree(d),
        ops_valid(d, ops),
    ensures
        is_tree(apply_ops(d, ops)),
    decreases ops.len(),
{
    if ops.len() > 0 {
        lemma_op_preserves_tree(d, ops[0]);
        lemma_ops_preserve_tree(apply_op(d, ops[0]), ops.drop_first());
    }
}

/// Any sequence of creations and appends that follows the protocol
/// discipline, applied to a fresh builder, yields a strict tree: every
/// non-root handle has at most one parent, the root is never a child, and
/// every parent's handle is smaller than its children's, so any walk from
/// the root descends through strictly growing handles and terminates.
pub proof fn lemma_build_is_tree(ops: Seq<BuildOp>)
    requires
        ops_valid(initial_document(), ops),
    ensures
        is_tree(apply_ops(initial_document(), ops)),
{
    lemma_initial_is_tree();
    lemma_ops_preserve_tree(initial_document(), ops);
}

/// The entries appended to parent `p` by a build-call sequence, in call
/// order.
pub open spec fn appends_to(ops: Seq<BuildOp>, p: int) -> Seq<ChildEntryView>
    decreases ops.len(),
{
    if ops.len() == 0 {
        Seq::empty()
    } else {
        let rest = appends_to(ops.drop_first(), p);
        match ops[0] {
            BuildOp::Append { parent, entry } => if parent == p {
                seq![entry] + rest
            } else {
                rest
            },
            BuildOp::Create { .. } => rest,
        }
    }
}

/// The children an element starts from: what the arena already held, or
/// nothing for an element not yet created.
pub open spec fn children_before(d: Seq<ElementView>, p: int) -> Seq<ChildEntryView> {
    if 0 <= p < d.len() {
        d[p].children
    } else {
        Seq::empty()
    }
}

/// Document order is call order: after any build-call sequence whose appends
/// all find their parent, the child sequence of each element is what it
/// started from followed by exactly the entries appended to it, in call
/// order.
pub proof fn lemma_children_mirror_appends(d: Seq<ElementView>, ops: Seq<BuildOp>, p: int)
    requires
        ops_parents_resolve(d, ops),
        0 <= p < apply_ops(d, ops).len(),
    ensures
        apply_ops(d, ops)[p].children == children_before(d, p) + appends_to(ops, p),
    decreases ops.len(),
{
    if ops.len() == 0 {
        assert(children_before(d, p) + Seq::<ChildEntryView>::empty() =~= d[p].children);
    } else {
        let op = ops[0];
        let d2 = apply_op(d, op);
        lemma_children_mirror_appends(d2, ops.drop_first(), p);
        match op {
            BuildOp::Create { name, attrs } => {
                assert(children_before(d2, p) =~= children_before(d, p));
            },
            BuildOp::Append { parent, entry } => {
                if parent == p {
                    assert(children_before(d2, p) == children_before(d, p).push(entry));
                    assert(children_before(d, p).push(entry) + appends_to(ops.drop_first(), p)
                        =~= children_before(d, p) + (seq![entry] + appends_to(
                        ops.drop_first(),
                        p,
                    )));
                } else {
                    assert(children_before(d2, p) =~= children_before(d, p));
                }
            },
        }
    }
}

/// Document order is call order, from a fresh builder: every element's child
/// sequence is exactly the sequence of entries appended to it.
pub proof fn lemma_document_order(ops: Seq<BuildOp>, p: int)
    requires
        ops_parents_resolve(initial_document(), ops),
        0 <= p < apply_ops(initial_document(), ops).len(),
    ensures
        apply_ops(initial_document(), ops)[p].children == appends_to(ops, p),
{
    lemma_children_mirror_appends(initial_document(), ops, p);
    assert(children_before(initial_document(), p) =~= Seq::<ChildEntryView>::empty());
    assert(Seq::<ChildEntryView>::empty() + appends_to(ops, p) =~= appends_to(ops, p));
}

} // verus!
