use glam::Vec2;
use yakui::geometry::Rect;
use yakui::id::WidgetId;
use yakui::layout::{interest_update, EventInterest, InterestUpdate, LayoutDom};
use yakui::positions::PositionResolver;

fn id(slot: u64, generation: u64) -> WidgetId {
    WidgetId::from_bits((generation << 32) | slot).unwrap()
}

fn rect(w: f32, h: f32) -> Rect {
    Rect::from_pos_size(Vec2::ZERO, Vec2::new(w, h))
}

#[test]
fn widget_id_bits_need_a_generation() {
    assert!(WidgetId::from_bits(0).is_none());
    assert!(WidgetId::from_bits(7).is_none());
    let w = WidgetId::from_bits((1u64 << 32) | 7).unwrap();
    assert_eq!(w.to_bits(), (1u64 << 32) | 7);
}

#[test]
fn new_dom_is_empty() {
    let dom = LayoutDom::new();
    assert_eq!(dom.len(), 0);
    assert!(dom.is_empty());
    assert!(dom.get(id(0, 1)).is_none());
}

#[test]
fn root_clips_itself_and_is_clipped_by_nothing() {
    let mut dom = LayoutDom::new();
    let root = id(0, 1);
    dom.finish_calculate(root, rect(100.0, 50.0), false, EventInterest(0));
    let node = dom.get(root).unwrap();
    assert!(node.clipping_enabled);
    assert_eq!(node.clipped_by, None);
    assert_eq!(node.clip_stack_id, root);
    assert_eq!(node.rect.size, Vec2::new(100.0, 50.0));
    assert_eq!(dom.len(), 1);
    assert!(!dom.is_empty());
}

#[test]
fn children_are_clipped_by_the_widget_that_enabled_clipping() {
    let mut dom = LayoutDom::new();
    let root = id(0, 1);
    let child = id(1, 1);
    let grandchild = id(2, 1);
    // The root enables clipping during its layout, then lays out its child.
    dom.enable_clipping(root);
    dom.finish_calculate(grandchild, rect(1.0, 1.0), false, EventInterest(0));
    dom.finish_calculate(child, rect(2.0, 2.0), true, EventInterest(3));
    dom.finish_calculate(root, rect(3.0, 3.0), false, EventInterest(0));
    let g = dom.get(grandchild).unwrap();
    assert_eq!(g.clipped_by, Some(root));
    assert!(!g.clipping_enabled);
    let c = dom.get(child).unwrap();
    assert_eq!(c.clipped_by, Some(root));
    assert!(c.new_layer);
    assert_eq!(c.event_interest, EventInterest(3));
    let r = dom.get(root).unwrap();
    assert!(r.clipping_enabled);
    assert_eq!(r.clipped_by, None);
    assert_eq!(r.clip_stack_id, root);
}

#[test]
fn a_nested_clipping_widget_is_clipped_by_the_widget_beneath_it() {
    let mut dom = LayoutDom::new();
    let a = id(0, 1);
    let b = id(1, 1);
    let c = id(2, 1);
    dom.enable_clipping(a);
    dom.enable_clipping(b);
    dom.enable_clipping(c);
    dom.finish_calculate(c, rect(1.0, 1.0), false, EventInterest(0));
    dom.finish_calculate(b, rect(1.0, 1.0), false, EventInterest(0));
    dom.finish_calculate(a, rect(1.0, 1.0), false, EventInterest(0));
    assert_eq!(dom.get(c).unwrap().clipped_by, Some(b));
    assert!(dom.get(c).unwrap().clipping_enabled);
    assert_eq!(dom.get(b).unwrap().clipped_by, Some(a));
    assert!(dom.get(b).unwrap().clipping_enabled);
    assert_eq!(dom.get(a).unwrap().clipped_by, None);
    assert!(dom.get(a).unwrap().clipping_enabled);
}

#[test]
fn a_new_clip_stack_belongs_to_its_widget() {
    let mut dom = LayoutDom::new();
    let root = id(0, 1);
    let layer = id(1, 1);
    let inner = id(2, 1);
    dom.enable_clipping(root);
    dom.new_clip_stack(layer);
    dom.finish_calculate(inner, rect(1.0, 1.0), false, EventInterest(0));
    dom.finish_calculate(layer, rect(1.0, 1.0), false, EventInterest(0));
    assert_eq!(dom.get(inner).unwrap().clip_stack_id, layer);
    assert_eq!(dom.get(inner).unwrap().clipped_by, Some(layer));
    assert_eq!(dom.get(layer).unwrap().clip_stack_id, layer);
    assert!(dom.get(layer).unwrap().clipping_enabled);
    assert_eq!(dom.get(layer).unwrap().clipped_by, None);
}

#[test]
fn set_pos_moves_only_existing_nodes() {
    let mut dom = LayoutDom::new();
    let root = id(0, 1);
    dom.finish_calculate(root, rect(4.0, 5.0), false, EventInterest(0));
    dom.set_pos(root, Vec2::new(10.0, 20.0));
    let node = dom.get(root).unwrap();
    assert_eq!(node.rect.pos, Vec2::new(10.0, 20.0));
    assert_eq!(node.rect.size, Vec2::new(4.0, 5.0));
    dom.set_pos(id(9, 1), Vec2::new(1.0, 1.0));
    assert_eq!(dom.len(), 1);
}

#[test]
fn get_mut_changes_the_node_in_place() {
    let mut dom = LayoutDom::new();
    let root = id(0, 1);
    dom.finish_calculate(root, rect(4.0, 5.0), false, EventInterest(0));
    dom.get_mut(root).unwrap().new_layer = true;
    assert!(dom.get(root).unwrap().new_layer);
    assert!(dom.get_mut(id(1, 1)).is_none());
}

#[test]
fn removed_widgets_lose_their_nodes() {
    let mut dom = LayoutDom::new();
    let a = id(0, 1);
    let b = id(1, 1);
    dom.finish_calculate(a, rect(1.0, 1.0), false, EventInterest(0));
    dom.finish_calculate(b, rect(1.0, 1.0), false, EventInterest(0));
    dom.sync_removals(&[a, id(5, 1)]);
    assert!(dom.get(a).is_none());
    assert!(dom.get(b).is_some());
    assert_eq!(dom.len(), 1);
}

#[test]
fn a_newer_generation_replaces_the_node_in_its_slot() {
    let mut dom = LayoutDom::new();
    let old = id(3, 1);
    let new = id(3, 2);
    dom.finish_calculate(old, rect(1.0, 1.0), false, EventInterest(0));
    dom.finish_calculate(new, rect(2.0, 2.0), false, EventInterest(0));
    assert!(dom.get(old).is_none());
    assert_eq!(dom.get(new).unwrap().rect.size, Vec2::new(2.0, 2.0));
    assert_eq!(dom.len(), 1);
}

#[test]
fn clearing_the_clip_stacks_keeps_the_nodes() {
    let mut dom = LayoutDom::new();
    let root = id(0, 1);
    dom.finish_calculate(root, rect(1.0, 1.0), false, EventInterest(0));
    dom.clear_clip_stacks();
    assert_eq!(dom.len(), 1);
    let other = id(1, 1);
    dom.finish_calculate(other, rect(1.0, 1.0), false, EventInterest(0));
    assert_eq!(dom.get(other).unwrap().clip_stack_id, other);
}

#[test]
fn an_old_generation_never_finds_the_new_node() {
    let mut dom = LayoutDom::new();
    let old = id(4, 1);
    let new = id(4, 2);
    dom.finish_calculate(new, rect(2.0, 2.0), false, EventInterest(0));
    assert!(dom.get(old).is_none());
    dom.sync_removals(&[new]);
    assert!(dom.get(new).is_none());
    assert!(dom.is_empty());
}

#[test]
fn the_active_clip_stack_is_reported() {
    let mut dom = LayoutDom::new();
    assert_eq!(dom.active_clip_stack(), None);
    let root = id(0, 1);
    dom.enable_clipping(root);
    assert_eq!(dom.active_clip_stack(), Some(root));
    assert_eq!(dom.clip_stack_count(), 1);
    dom.clear_clip_stacks();
    assert_eq!(dom.active_clip_stack(), None);
    assert_eq!(dom.clip_stack_count(), 0);
}

#[test]
fn interest_is_registered_for_mouse_or_keys_and_layers_are_detected() {
    let w = id(0, 1);
    let other = id(1, 1);
    let mouse = EventInterest(0b0011);
    let keys = EventInterest(0b0100);
    assert_eq!(
        interest_update(w, EventInterest(0b0010), mouse, keys, Some(w)),
        InterestUpdate { register: true, new_layer: true }
    );
    assert_eq!(
        interest_update(w, EventInterest(0b0100), mouse, keys, Some(other)),
        InterestUpdate { register: true, new_layer: false }
    );
    assert_eq!(
        interest_update(w, EventInterest(0b1000), mouse, keys, None),
        InterestUpdate { register: false, new_layer: false }
    );
}

#[test]
fn positions_are_resolved_breadth_first_skipping_missing_subtrees() {
    let mut dom = LayoutDom::new();
    let root = id(0, 1);
    let a = id(1, 1);
    let missing = id(2, 1);
    let b = id(3, 1);
    for w in [root, a, b] {
        dom.finish_calculate(w, rect(1.0, 1.0), false, EventInterest(0));
    }
    let mut resolver = PositionResolver::new(root);
    assert_eq!(resolver.next(&dom), Some((root, None)));
    resolver.push_children(root, &[missing, a]);
    assert_eq!(resolver.next(&dom), Some((a, Some(root))));
    resolver.push_children(a, &[b]);
    assert_eq!(resolver.next(&dom), Some((b, Some(a))));
    resolver.push_children(b, &[]);
    assert_eq!(resolver.next(&dom), None);
    assert_eq!(resolver.next(&dom), None);
}

#[test]
fn a_root_without_a_node_places_nothing() {
    let dom = LayoutDom::new();
    let mut resolver = PositionResolver::new(id(0, 1));
    assert_eq!(resolver.next(&dom), None);
}
