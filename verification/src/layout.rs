//! The layout DOM: per widget, where it was laid out and how it is clipped.
use vstd::prelude::*;
use crate::arena::{arena_wf, insert_at_spec, lemma_insert_at_wf, slot_occupied};
use crate::geometry::Rect;
use crate::id::{slot_of, WidgetId};
use crate::layout_store::{
    clip_stacks, clips_clear, clips_get_mut, clips_insert_at, clips_len, clips_new, layout_nodes,
    nodes_get, nodes_get_mut, nodes_insert_at, nodes_len, nodes_new, nodes_remove,
};

verus! {

/// The bits of a widget's event-interest flags.
#[derive(Clone, Copy, Debug, PartialEq, Eq, Structural)]
pub struct EventInterest(pub u32);

/// What a widget's layout does to the registry of event interests once its
/// widget has laid itself out.
#[derive(Clone, Copy, Debug, PartialEq, Eq, Structural)]
pub struct InterestUpdate {
    /// Register the widget's interest: it wants mouse events or captured keys.
    pub register: bool,
    /// The widget opened a new layer during its layout; the layer is done and
    /// is popped, and the widget's node marks it as a layer root.
    pub new_layer: bool,
}

/// Whether the flags `a` and `b` share a bit.
pub open spec fn intersects(a: EventInterest, b: EventInterest) -> bool {
    a.0 & b.0 != 0
}

/// Decides, after widget `id` has laid itself out, whether its interest is
/// registered (it shares a bit with `mouse_all` or with `capture_keys`) and
/// whether it opened a new layer (it is the root of the current layer).
pub fn interest_update(
    id: WidgetId,
    event_interest: EventInterest,
    mouse_all: EventInterest,
    capture_keys: EventInterest,
    current_layer_root: Option<WidgetId>,
) -> (r: InterestUpdate)
    ensures
        r.register == (intersects(event_interest, mouse_all) || intersects(
            event_interest,
            capture_keys,
        )),
        r.new_layer == (current_layer_root == Some(id)),
{
    let new_layer = match current_layer_root {
        Some(root) => root == id,
        None => false,
    };
    let register = event_interest.0 & mouse_all.0 != 0 || event_interest.0 & capture_keys.0 != 0;
    InterestUpdate { register, new_layer }
}

/// A node in a [`LayoutDom`].
#[derive(Clone, Copy, Debug)]
pub struct LayoutDomNode {
    /// The bounding rectangle of the node in logical pixels.
    pub rect: Rect,
    /// This node will clip its descendants to its bounding rectangle.
    pub clipping_enabled: bool,
    /// This node is the beginning of a new layer, and all of its descendants
    /// should be hit tested and painted with higher priority.
    pub new_layer: bool,
    /// This node is clipped to the region defined by the given node.
    pub clipped_by: Option<WidgetId>,
    /// What events the widget reported interest in.
    pub event_interest: EventInterest,
    /// Which clip stack the widget belongs in.
    pub clip_stack_id: WidgetId,
}

} // verus!

verus! {

/// Contains information on how each widget in the DOM is laid out, and the
/// clip stacks that are open during a layout pass.
pub struct LayoutDom {
    nodes: thunderdome::Arena<LayoutDomNode>,
    clip_stack: thunderdome::Arena<Vec<WidgetId>>,
    current_clip_stack: Option<WidgetId>,
}

/// The clip stacks and the active stack once some stack is active during the
/// layout of widget `w`: the active one if there is one, else a new stack
/// keyed by `w` holding `w` alone.
pub open spec fn ensure_active(
    clips: Map<u64, Seq<WidgetId>>,
    active: Option<WidgetId>,
    w: WidgetId,
) -> (Map<u64, Seq<WidgetId>>, WidgetId) {
    match active {
        Some(a) => (clips, a),
        None => (insert_at_spec(clips, w.spec_bits(), seq![w]), w),
    }
}

/// The clip stacks and the active stack after widget `w` enables clipping:
/// `w` is pushed onto the active stack, which is first opened (keyed by `w`)
/// if none is active.
pub open spec fn enable_clipping_spec(
    clips: Map<u64, Seq<WidgetId>>,
    active: Option<WidgetId>,
    w: WidgetId,
) -> (Map<u64, Seq<WidgetId>>, WidgetId) {
    match active {
        Some(a) => (clips.insert(a.spec_bits(), clips[a.spec_bits()].push(w)), a),
        None => (insert_at_spec(clips, w.spec_bits(), seq![w]), w),
    }
}

/// Whether widget `w` enabled clipping during its own layout: it is on top of
/// the stack `s`.
pub open spec fn tops_stack(s: Seq<WidgetId>, w: WidgetId) -> bool {
    s.len() > 0 && s.last() == w
}

/// The widget that clips `w`, read from the active stack `s` when `w`'s layout
/// ends: the top of the stack when `w` did not enable clipping, else the entry
/// directly beneath `w` (none when `w` is the only entry).
pub open spec fn clipped_by_spec(s: Seq<WidgetId>, w: WidgetId) -> Option<WidgetId> {
    if tops_stack(s, w) {
        if s.len() >= 2 {
            Some(s[s.len() - 2])
        } else {
            None
        }
    } else if s.len() > 0 {
        Some(s.last())
    } else {
        None
    }
}

/// The clip stacks after the layout of `w` ends, `a` being the active stack:
/// `w` is popped if it is on top.
pub open spec fn pop_finished(clips: Map<u64, Seq<WidgetId>>, a: WidgetId, w: WidgetId) -> Map<
    u64,
    Seq<WidgetId>,
> {
    let s = clips[a.spec_bits()];
    if tops_stack(s, w) {
        clips.insert(a.spec_bits(), s.drop_last())
    } else {
        clips
    }
}

/// The node recorded for `w` when its layout ends, with `a` the active stack
/// and `clips` the stacks at that point.
pub open spec fn finished_node(
    clips: Map<u64, Seq<WidgetId>>,
    a: WidgetId,
    w: WidgetId,
    rect: Rect,
    new_layer: bool,
    event_interest: EventInterest,
) -> LayoutDomNode {
    let s = clips[a.spec_bits()];
    LayoutDomNode {
        rect,
        clipping_enabled: tops_stack(s, w),
        new_layer,
        clipped_by: clipped_by_spec(s, w),
        event_interest,
        clip_stack_id: a,
    }
}

/// The index bits of the ids in `removals`.
pub open spec fn removal_keys(removals: Seq<WidgetId>) -> Set<u64> {
    Set::new(|k: u64| exists|i: int| 0 <= i < removals.len() && #[trigger] removals[i].spec_bits() == k)
}

impl LayoutDom {
    /// What the DOM holds: a node per laid-out widget, keyed by its index bits.
    pub closed spec fn node_map(self) -> Map<u64, LayoutDomNode> {
        layout_nodes(self.nodes)
    }

    /// The clip stacks, keyed by the index bits of the widget that opened each.
    pub closed spec fn clip_map(self) -> Map<u64, Seq<WidgetId>> {
        clip_stacks(self.clip_stack)
    }

    /// The clip stack that is active, named by the widget that opened it.
    pub closed spec fn active_clip(self) -> Option<WidgetId> {
        self.current_clip_stack
    }

    /// Both arenas have their shape, and an active clip stack is present.
    pub open spec fn wf(self) -> bool {
        &&& arena_wf(self.node_map())
        &&& arena_wf(self.clip_map())
        &&& (self.active_clip() matches Some(a) ==> self.clip_map().contains_key(a.spec_bits()))
    }

    /// Create an empty `LayoutDom`.
    pub fn new() -> (r: Self)
        ensures
            r.wf(),
            r.node_map() == Map::<u64, LayoutDomNode>::empty(),
            r.clip_map() == Map::<u64, Seq<WidgetId>>::empty(),
            r.active_clip() is None,
    {
        LayoutDom { nodes: nodes_new(), clip_stack: clips_new(), current_clip_stack: None }
    }

    /// Drops the nodes of the widgets that were removed from the DOM.
    pub fn sync_removals(&mut self, removals: &[WidgetId])
        requires
            old(self).wf(),
        ensures
            final(self).wf(),
            final(self).node_map() == old(self).node_map().remove_keys(removal_keys(removals@)),
            final(self).clip_map() == old(self).clip_map(),
            final(self).active_clip() == old(self).active_clip(),
    {
        let ghost m0 = self.node_map();
        let n = removals.len();
        let mut i: usize = 0;
        while i < n
            invariant
                n == removals@.len(),
                i <= n,
                self.wf(),
                self.node_map() == m0.remove_keys(removal_keys(removals@.take(i as int))),
                self.clip_map() == old(self).clip_map(),
                self.active_clip() == old(self).active_clip(),
            decreases n - i,
        {
            let id = removals[i];
            let k = id.to_bits();
            let _ = nodes_remove(&mut self.nodes, k);
            assert(removal_keys(removals@.take(i + 1)) =~= removal_keys(removals@.take(i as int)).insert(k)) by {
                assert forall|j: u64| removal_keys(removals@.take(i + 1)).contains(j) implies removal_keys(
                    removals@.take(i as int),
                ).insert(k).contains(j) by {
                    let t = choose|t: int| 0 <= t < i + 1 && #[trigger] removals@.take(i + 1)[t].spec_bits() == j;
                    if t < i {
                        assert(removals@.take(i as int)[t] == removals@.take(i + 1)[t]);
                    }
                }
                assert forall|j: u64| removal_keys(removals@.take(i as int)).insert(k).contains(j) implies removal_keys(
                    removals@.take(i + 1),
                ).contains(j) by {
                    if j == k {
                        assert(removals@.take(i + 1)[i as int] == id);
                    } else {
                        let t = choose|t: int| 0 <= t < i && #[trigger] removals@.take(i as int)[t].spec_bits() == j;
                        assert(removals@.take(i + 1)[t] == removals@.take(i as int)[t]);
                    }
                }
            }
            assert(self.node_map() =~= m0.remove_keys(removal_keys(removals@.take(i + 1))));
            i = i + 1;
        }
        assert(removals@.take(n as int) =~= removals@);
    }

    /// Get a widget's layout information.
    pub fn get(&self, id: WidgetId) -> (r: Option<&LayoutDomNode>)
        ensures
            r is Some <==> self.node_map().contains_key(id.spec_bits()),
            r matches Some(v) ==> *v == self.node_map()[id.spec_bits()],
    {
        nodes_get(&self.nodes, id.to_bits())
    }

    /// Get a mutable reference to a widget's layout information.
    pub fn get_mut(&mut self, id: WidgetId) -> (r: Option<&mut LayoutDomNode>)
        requires
            old(self).wf(),
        ensures
            r is Some <==> old(self).node_map().contains_key(id.spec_bits()),
            r matches Some(v) ==> *v == old(self).node_map()[id.spec_bits()]
                && final(self).node_map() == old(self).node_map().insert(id.spec_bits(), *final(v)),
            r is None ==> final(self).node_map() == old(self).node_map(),
            final(self).clip_map() == old(self).clip_map(),
            final(self).active_clip() == old(self).active_clip(),
            final(self).wf(),
    {
        let k = id.to_bits();
        nodes_get_mut(&mut self.nodes, k)
    }

    /// Tells how many nodes are currently in the `LayoutDom`.
    pub fn len(&self) -> (r: usize)
        requires
            self.wf(),
        ensures
            r == self.node_map().len(),
    {
        nodes_len(&self.nodes)
    }

    /// How many clip stacks are open; callers check it against `u32::MAX`
    /// before opening another.
    pub fn clip_stack_count(&self) -> (r: usize)
        requires
            self.wf(),
        ensures
            r == self.clip_map().len(),
    {
        clips_len(&self.clip_stack)
    }

    /// The clip stack that is active, named by the widget that opened it.
    pub fn active_clip_stack(&self) -> (r: Option<WidgetId>)
        ensures
            r == self.active_clip(),
    {
        self.current_clip_stack
    }

    /// Tells whether the `LayoutDom` is currently empty.
    pub fn is_empty(&self) -> (r: bool)
        requires
            self.wf(),
        ensures
            r <==> self.node_map() == Map::<u64, LayoutDomNode>::empty(),
    {
        let n = nodes_len(&self.nodes);
        proof {
            if n == 0 {
                assert(self.node_map().dom() =~= Set::empty());
                assert(self.node_map() =~= Map::<u64, LayoutDomNode>::empty());
            } else {
                assert(self.node_map().dom() !== Set::<u64>::empty());
            }
        }
        n == 0
    }

    /// Closes every clip stack; the first step of a layout pass over the DOM.
    pub fn clear_clip_stacks(&mut self)
        requires
            old(self).wf(),
        ensures
            final(self).wf(),
            final(self).node_map() == old(self).node_map(),
            final(self).clip_map() == Map::<u64, Seq<WidgetId>>::empty(),
            final(self).active_clip() is None,
    {
        clips_clear(&mut self.clip_stack);
        self.current_clip_stack = None;
    }

    /// Enables clipping for the currently active widget `current`: pushes it
    /// onto the active clip stack, opening one keyed by `current` if none is
    /// active.
    pub fn enable_clipping(&mut self, current: WidgetId)
        requires
            old(self).wf(),
            old(self).active_clip() is Some || slot_occupied(old(self).clip_map(), current.spec_bits())
                || old(self).clip_map().len() < u32::MAX,
        ensures
            final(self).wf(),
            final(self).node_map() == old(self).node_map(),
            (final(self).clip_map(), final(self).active_clip().unwrap()) == enable_clipping_spec(
                old(self).clip_map(),
                old(self).active_clip(),
                current,
            ),
            final(self).active_clip() is Some,
            old(self).active_clip() matches Some(a) ==> final(self).active_clip() == Some(a)
                && final(self).clip_map()[a.spec_bits()] == old(self).clip_map()[a.spec_bits()].push(
                current,
            ),
            old(self).active_clip() is None ==> final(self).active_clip() == Some(current)
                && final(self).clip_map()[current.spec_bits()] == seq![current],
    {
        let k = current.to_bits();
        if self.current_clip_stack.is_none() {
            self.current_clip_stack = Some(current);
            proof {
                lemma_insert_at_wf(self.clip_map(), k, Seq::<WidgetId>::empty());
            }
            let _ = clips_insert_at(&mut self.clip_stack, k, Vec::new());
        }
        let active = self.current_clip_stack.unwrap();
        let stack = clips_get_mut(&mut self.clip_stack, active.to_bits());
        stack.push(current);
        assert(self.clip_map().dom() =~= old(self).clip_map().dom() || old(self).active_clip() is None);
    }

    /// Create a new clip stack for the currently active widget `current`, make
    /// it the active one, and enable clipping for `current` on it.
    pub fn new_clip_stack(&mut self, current: WidgetId)
        requires
            old(self).wf(),
            slot_occupied(old(self).clip_map(), current.spec_bits()) || old(self).clip_map().len()
                < u32::MAX,
        ensures
            final(self).wf(),
            final(self).node_map() == old(self).node_map(),
            final(self).clip_map() == insert_at_spec(
                old(self).clip_map(),
                current.spec_bits(),
                seq![current],
            ),
            final(self).active_clip() == Some(current),
    {
        let k = current.to_bits();
        self.current_clip_stack = Some(current);
        proof {
            lemma_insert_at_wf(self.clip_map(), k, Seq::<WidgetId>::empty());
        }
        let _ = clips_insert_at(&mut self.clip_stack, k, Vec::new());
        self.enable_clipping(current);
        assert(self.clip_map() =~= insert_at_spec(old(self).clip_map(), k, seq![current]));
    }

    /// Records the layout of widget `id` once its own layout has produced
    /// `rect` (the rest of `calculate`): makes sure a clip stack is active,
    /// reads from it whether `id` enabled clipping and which widget clips
    /// `id`, stores `id`'s node, and pops `id` off the stack if it is on top.
    pub fn finish_calculate(
        &mut self,
        id: WidgetId,
        rect: Rect,
        new_layer: bool,
        event_interest: EventInterest,
    )
        requires
            old(self).wf(),
            old(self).active_clip() is Some || slot_occupied(old(self).clip_map(), id.spec_bits())
                || old(self).clip_map().len() < u32::MAX,
            slot_occupied(old(self).node_map(), id.spec_bits()) || old(self).node_map().len()
                < u32::MAX,
        ensures
            final(self).wf(),
            ({
                let (c1, a) = ensure_active(old(self).clip_map(), old(self).active_clip(), id);
                &&& final(self).active_clip() == Some(a)
                &&& final(self).clip_map() == pop_finished(c1, a, id)
                &&& final(self).node_map() == insert_at_spec(
                    old(self).node_map(),
                    id.spec_bits(),
                    finished_node(c1, a, id, rect, new_layer, event_interest),
                )
            }),
            ({
                let (c1, a) = ensure_active(old(self).clip_map(), old(self).active_clip(), id);
                let s = c1[a.spec_bits()];
                let n = final(self).node_map()[id.spec_bits()];
                &&& final(self).node_map().contains_key(id.spec_bits())
                &&& n.rect == rect && n.new_layer == new_layer && n.event_interest == event_interest
                &&& n.clip_stack_id == a
                &&& n.clipping_enabled == (s.len() > 0 && s[s.len() - 1] == id)
                &&& s.len() == 0 ==> n.clipped_by is None
                &&& s.len() > 0 && s[s.len() - 1] != id ==> n.clipped_by == Some(s[s.len() - 1])
                &&& s.len() >= 2 && s[s.len() - 1] == id ==> n.clipped_by == Some(s[s.len() - 2])
                &&& s.len() == 1 && s[0] == id ==> n.clipped_by is None
            }),
    {
        let k = id.to_bits();
        if self.current_clip_stack.is_none() {
            self.enable_clipping(id);
        }
        let ghost c1 = self.clip_map();
        // There is always a currently active clip stack at this point.
        let active = self.current_clip_stack.unwrap();
        let stack = clips_get_mut(&mut self.clip_stack, active.to_bits());
        let n = stack.len();
        // If the widget enabled clipping during its layout, it is on top of
        // the clip stack now.
        let clipping_enabled = n > 0 && stack[n - 1] == id;
        let clipped_by = if clipping_enabled {
            // If this node enabled clipping, the next node under it is the
            // node that clips this one.
            if n >= 2 {
                Some(stack[n - 2])
            } else {
                None
            }
        } else if n > 0 {
            Some(stack[n - 1])
        } else {
            None
        };
        let node = LayoutDomNode {
            rect,
            clipping_enabled,
            new_layer,
            clipped_by,
            event_interest,
            clip_stack_id: active,
        };
        proof {
            lemma_insert_at_wf(layout_nodes(self.nodes), k, node);
        }
        let _ = nodes_insert_at(&mut self.nodes, k, node);
        if clipping_enabled {
            stack.pop();
        }
        proof {
            assert(node == finished_node(c1, active, id, rect, new_layer, event_interest));
            lemma_finished_node_reads_stack(c1, active, id, rect, new_layer, event_interest);
            lemma_recorded_node_is_found(old(self).node_map(), id, node);
        }
    }

    /// Set the position of a widget; nothing happens to a widget without a node.
    pub fn set_pos(&mut self, id: WidgetId, pos: glam::Vec2)
        requires
            old(self).wf(),
        ensures
            final(self).wf(),
            final(self).node_map() == set_pos_spec(old(self).node_map(), id, pos),
            final(self).clip_map() == old(self).clip_map(),
            final(self).active_clip() == old(self).active_clip(),
    {
        let k = id.to_bits();
        if let Some(node) = nodes_get_mut(&mut self.nodes, k) {
            node.rect.set_pos(pos);
        }
    }
}

/// The nodes after the widget `id` is moved to `pos`: its node, if it has
/// one, keeps everything but the position of its rectangle.
pub open spec fn set_pos_spec(m: Map<u64, LayoutDomNode>, id: WidgetId, pos: glam::Vec2) -> Map<
    u64,
    LayoutDomNode,
> {
    let k = id.spec_bits();
    if m.contains_key(k) {
        m.insert(k, LayoutDomNode { rect: Rect { pos, size: m[k].rect.size }, ..m[k] })
    } else {
        m
    }
}

} // verus!

verus! {

/// A widget that enables clipping on the active stack and whose layout then
/// ends leaves the clip stacks as it found them; its node says it clips, and
/// the active stack stays active.
pub proof fn lemma_clipping_widget_restores_stack(
    clips: Map<u64, Seq<WidgetId>>,
    a: WidgetId,
    w: WidgetId,
    rect: Rect,
    new_layer: bool,
    event_interest: EventInterest,
)
    requires
        clips.contains_key(a.spec_bits()),
    ensures
        ({
            let (c1, a1) = enable_clipping_spec(clips, Some(a), w);
            let (c2, a2) = ensure_active(c1, Some(a1), w);
            &&& a2 == a
            &&& pop_finished(c2, a2, w) == clips
            &&& finished_node(c2, a2, w, rect, new_layer, event_interest).clipping_enabled
        }),
{
    let s = clips[a.spec_bits()];
    assert(s.push(w).drop_last() =~= s);
    assert(clips.insert(a.spec_bits(), s) =~= clips);
}

/// The node recorded when widget `w`'s layout ends, read off the active stack
/// `s`: it keeps the given rectangle, layer flag and interest, belongs to the
/// active stack, clips exactly when `w` is on top of `s`, and is clipped by
/// the widget directly beneath `w` when `w` is on top, by the top of `s`
/// otherwise, and by nothing when there is no such widget (in particular
/// when `s` is empty).
pub proof fn lemma_finished_node_reads_stack(
    clips: Map<u64, Seq<WidgetId>>,
    a: WidgetId,
    w: WidgetId,
    rect: Rect,
    new_layer: bool,
    event_interest: EventInterest,
)
    ensures
        ({
            let s = clips[a.spec_bits()];
            let n = finished_node(clips, a, w, rect, new_layer, event_interest);
            &&& n.rect == rect && n.new_layer == new_layer && n.event_interest == event_interest
            &&& n.clip_stack_id == a
            &&& n.clipping_enabled == (s.len() > 0 && s[s.len() - 1] == w)
            &&& s.len() == 0 ==> n.clipped_by is None
            &&& s.len() > 0 && s[s.len() - 1] != w ==> n.clipped_by == Some(s[s.len() - 1])
            &&& s.len() >= 2 && s[s.len() - 1] == w ==> n.clipped_by == Some(s[s.len() - 2])
            &&& s.len() == 1 && s[0] == w ==> n.clipped_by is None
        }),
{
}

/// A widget laid out while another widget `p` that enabled clipping is on top
/// of the active stack is clipped by `p`, does not clip itself, and leaves the
/// stacks unchanged.
pub proof fn lemma_child_clipped_by_clipping_parent(
    clips: Map<u64, Seq<WidgetId>>,
    a: WidgetId,
    p: WidgetId,
    c: WidgetId,
    rect: Rect,
    new_layer: bool,
    event_interest: EventInterest,
)
    requires
        clips.contains_key(a.spec_bits()),
        tops_stack(clips[a.spec_bits()], p),
        c != p,
    ensures
        ({
            let (c1, a1) = ensure_active(clips, Some(a), c);
            let node = finished_node(c1, a1, c, rect, new_layer, event_interest);
            &&& node.clipped_by == Some(p)
            &&& !node.clipping_enabled
            &&& node.clip_stack_id == a
            &&& pop_finished(c1, a1, c) == clips
        }),
{
}

/// A widget that enabled clipping on top of another widget `p` is clipped by
/// `p`, the entry directly beneath it; one alone on its stack is clipped by
/// nothing.
pub proof fn lemma_clipping_widget_clipped_by_widget_beneath(
    s: Seq<WidgetId>,
    p: WidgetId,
    w: WidgetId,
)
    ensures
        clipped_by_spec(s.push(p).push(w), w) == Some(p),
        clipped_by_spec(seq![w], w) is None,
{
    assert(s.push(p).push(w).last() == w);
    assert(seq![w].last() == w);
}

/// A node is found only under its exact index: once its slot is taken by
/// another generation, or it is removed, its id finds nothing, and never the
/// other generation's node.
pub proof fn lemma_node_found_only_under_exact_index(
    m: Map<u64, LayoutDomNode>,
    id: WidgetId,
    other: WidgetId,
    node: LayoutDomNode,
)
    requires
        slot_of(other.spec_bits()) == slot_of(id.spec_bits()),
        other != id,
    ensures
        !insert_at_spec(m, other.spec_bits(), node).contains_key(id.spec_bits()),
        insert_at_spec(m, other.spec_bits(), node)[other.spec_bits()] == node,
        !m.remove(id.spec_bits()).contains_key(id.spec_bits()),
{
    WidgetId::lemma_bits_identify(id, other);
}

/// After a widget is moved, its node holds the new position and its old size,
/// and every other widget's node is unchanged.
pub proof fn lemma_set_pos_reads_back(m: Map<u64, LayoutDomNode>, id: WidgetId, pos: glam::Vec2)
    requires
        m.contains_key(id.spec_bits()),
    ensures
        set_pos_spec(m, id, pos).contains_key(id.spec_bits()),
        set_pos_spec(m, id, pos)[id.spec_bits()].rect.pos == pos,
        set_pos_spec(m, id, pos)[id.spec_bits()].rect.size == m[id.spec_bits()].rect.size,
        forall|k: u64| k != id.spec_bits() ==> #[trigger] set_pos_spec(m, id, pos).contains_key(k)
            == m.contains_key(k) && (m.contains_key(k) ==> set_pos_spec(m, id, pos)[k] == m[k]),
{
}

/// Once removals are synced, no removed widget has a node, and every other
/// widget keeps its node.
pub proof fn lemma_removed_widgets_have_no_node(
    m: Map<u64, LayoutDomNode>,
    removals: Seq<WidgetId>,
    k: u64,
)
    ensures
        (exists|i: int| 0 <= i < removals.len() && #[trigger] removals[i].spec_bits() == k)
            ==> !m.remove_keys(removal_keys(removals)).contains_key(k),
        !(exists|i: int| 0 <= i < removals.len() && #[trigger] removals[i].spec_bits() == k)
            ==> m.remove_keys(removal_keys(removals)).contains_key(k) == m.contains_key(k),
{
}

/// The node recorded when a widget's layout ends is the one found under its id.
pub proof fn lemma_recorded_node_is_found(
    m: Map<u64, LayoutDomNode>,
    id: WidgetId,
    node: LayoutDomNode,
)
    ensures
        insert_at_spec(m, id.spec_bits(), node).contains_key(id.spec_bits()),
        insert_at_spec(m, id.spec_bits(), node)[id.spec_bits()] == node,
{
}

} // verus!
