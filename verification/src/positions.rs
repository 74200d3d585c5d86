//! The traversal that resolves widget positions: widgets are placed breadth
//! first from the root, each relative to the widget whose children brought it
//! in; widgets without a layout node are skipped along with their subtrees.
//! Positions are float vectors, so the caller adds them up; this module
//! decides which widget is placed next and against which parent.
use vstd::prelude::*;
use std::collections::VecDeque;
use crate::id::WidgetId;
use crate::layout::{LayoutDom, LayoutDomNode};

verus! {

/// Whether the layout `m` has a node for widget `w`.
pub open spec fn has_node(m: Map<u64, LayoutDomNode>, w: WidgetId) -> bool {
    m.contains_key(w.spec_bits())
}

/// Whether the first `i` pending entries of `q` all name widgets without a
/// node in `m`.
pub open spec fn all_absent_before(
    q: Seq<(WidgetId, Option<WidgetId>)>,
    m: Map<u64, LayoutDomNode>,
    i: int,
) -> bool {
    forall|j: int| 0 <= j < i ==> !has_node(m, #[trigger] q[j].0)
}

/// The widgets waiting to be placed, each with the parent it is placed
/// relative to (`None` for the root, placed at the origin).
pub struct PositionResolver {
    queue: VecDeque<(WidgetId, Option<WidgetId>)>,
}

impl PositionResolver {
    /// The pending widgets, in the order they will be considered.
    pub closed spec fn pending(self) -> Seq<(WidgetId, Option<WidgetId>)> {
        self.queue@
    }

    /// A traversal that starts at `root`, which has no parent.
    pub fn new(root: WidgetId) -> (r: Self)
        ensures
            r.pending() == seq![(root, None::<WidgetId>)],
    {
        let mut queue = VecDeque::new();
        queue.push_back((root, None));
        assert(queue@ =~= seq![(root, None::<WidgetId>)]);
        PositionResolver { queue }
    }

    /// The next widget to place, with its parent: the first pending widget
    /// that has a layout node; the ones before it are dropped unplaced, and so
    /// their children are never reached. `None` once no pending widget has a
    /// node, and then nothing is pending.
    pub fn next(&mut self, layout: &LayoutDom) -> (r: Option<(WidgetId, Option<WidgetId>)>)
        ensures
            r matches Some(e) ==> exists|i: int|
                0 <= i < old(self).pending().len() && all_absent_before(
                    old(self).pending(),
                    layout.node_map(),
                    i,
                ) && old(self).pending()[i] == e && has_node(layout.node_map(), e.0)
                    && final(self).pending() == old(self).pending().skip(i + 1),
            r is None ==> all_absent_before(
                old(self).pending(),
                layout.node_map(),
                old(self).pending().len() as int,
            ) && final(self).pending().len() == 0,
    {
        let ghost q0 = self.queue@;
        let ghost mut skipped: int = 0;
        loop
            invariant_except_break
                q0 == old(self).pending(),
                0 <= skipped <= q0.len(),
                all_absent_before(q0, layout.node_map(), skipped),
                self.queue@ == q0.skip(skipped),
            ensures
                q0 == old(self).pending(),
                all_absent_before(q0, layout.node_map(), q0.len() as int),
                self.queue@.len() == 0,
            decreases self.queue@.len(),
        {
            match self.queue.pop_front() {
                Some((id, parent)) => {
                    assert(q0[skipped] == (id, parent));
                    if layout.get(id).is_some() {
                        assert(self.queue@ =~= q0.skip(skipped + 1));
                        return Some((id, parent));
                    }
                    assert(self.queue@ =~= q0.skip(skipped + 1));
                    proof {
                        skipped = skipped + 1;
                    }
                },
                None => {
                    assert(skipped == q0.len());
                    break;
                },
            }
        }
        None
    }

    /// Queues the children of `parent`, in order, to be placed relative to it.
    pub fn push_children(&mut self, parent: WidgetId, children: &[WidgetId])
        ensures
            final(self).pending() == old(self).pending() + children@.map_values(
                |c: WidgetId| (c, Some(parent)),
            ),
    {
        let mut i: usize = 0;
        while i < children.len()
            invariant
                i <= children@.len(),
                self.queue@ == old(self).pending() + children@.take(i as int).map_values(
                    |c: WidgetId| (c, Some(parent)),
                ),
            decreases children@.len() - i,
        {
            self.queue.push_back((children[i], Some(parent)));
            assert(children@.take(i + 1).map_values(|c: WidgetId| (c, Some(parent))) =~= children@.take(
                i as int,
            ).map_values(|c: WidgetId| (c, Some(parent))).push((children@[i as int], Some(parent))));
            i = i + 1;
        }
        assert(children@.take(children@.len() as int) =~= children@);
    }
}

} // verus!
