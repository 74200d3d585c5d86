//! The two arenas of the layout DOM: one node per laid-out widget, and one
//! clip stack per widget that opened one. Each wrapper makes one call into
//! thunderdome's `Arena`, converting packed index bits to an `Index`.
use vstd::prelude::*;
use thunderdome::{Arena, Index};
use crate::arena::{arena_wf, is_empty_contents, insert_at_spec, same_slot_keys, slot_occupied};
use crate::id::{valid_index_bits, WidgetId};
use crate::layout::LayoutDomNode;

verus! {

/// What an arena of layout nodes holds: index bits to node.
pub uninterp spec fn layout_nodes(a: Arena<LayoutDomNode>) -> Map<u64, LayoutDomNode>;

/// What an arena of clip stacks holds: index bits to the stack, bottom first.
pub uninterp spec fn clip_stacks(a: Arena<Vec<WidgetId>>) -> Map<u64, Seq<WidgetId>>;

/// `Arena::new`: an arena with no entries.
#[verifier::external_body]
pub(crate) fn nodes_new() -> (r: Arena<LayoutDomNode>)
    ensures
        is_empty_contents(layout_nodes(r)),
{
    Arena::new()
}

/// `Arena::len`: the number of entries.
#[verifier::external_body]
pub(crate) fn nodes_len(a: &Arena<LayoutDomNode>) -> (r: usize)
    requires
        arena_wf(layout_nodes(*a)),
    ensures
        r == layout_nodes(*a).len(),
{
    a.len()
}

/// `Arena::get`: the entry at exactly this index (slot and generation).
#[verifier::external_body]
pub(crate) fn nodes_get(a: &Arena<LayoutDomNode>, k: u64) -> (r: Option<&LayoutDomNode>)
    requires
        valid_index_bits(k),
    ensures
        r is Some <==> layout_nodes(*a).contains_key(k),
        r matches Some(v) ==> *v == layout_nodes(*a)[k],
{
    a.get(Index::from_bits(k).unwrap())
}

/// `Arena::get_mut`: the entry at exactly this index, to be changed in place.
#[verifier::external_body]
pub(crate) fn nodes_get_mut(a: &mut Arena<LayoutDomNode>, k: u64) -> (r: Option<
    &mut LayoutDomNode,
>)
    requires
        valid_index_bits(k),
    ensures
        r is Some <==> layout_nodes(*old(a)).contains_key(k),
        r matches Some(v) ==> *v == layout_nodes(*old(a))[k] && layout_nodes(*final(a))
            == layout_nodes(*old(a)).insert(k, *final(v)),
        r is None ==> layout_nodes(*final(a)) == layout_nodes(*old(a)),
{
    a.get_mut(Index::from_bits(k).unwrap())
}

/// `Arena::insert_at`: places `v` at index `k`, replacing whatever occupied
/// `k`'s slot (of any generation), which it returns.
#[verifier::external_body]
pub(crate) fn nodes_insert_at(a: &mut Arena<LayoutDomNode>, k: u64, v: LayoutDomNode) -> (r:
    Option<LayoutDomNode>)
    requires
        valid_index_bits(k),
        slot_occupied(layout_nodes(*old(a)), k) || layout_nodes(*old(a)).len() < u32::MAX,
    ensures
        layout_nodes(*final(a)) == insert_at_spec(layout_nodes(*old(a)), k, v),
        r is Some <==> slot_occupied(layout_nodes(*old(a)), k),
        r matches Some(o) ==> exists|j: u64|
            #[trigger] same_slot_keys(layout_nodes(*old(a)), k).contains(j) && layout_nodes(
                *old(a),
            )[j] == o,
{
    a.insert_at(Index::from_bits(k).unwrap(), v)
}

/// `Arena::remove`: takes out the entry at exactly index `k`, if there is one.
#[verifier::external_body]
pub(crate) fn nodes_remove(a: &mut Arena<LayoutDomNode>, k: u64) -> (r: Option<LayoutDomNode>)
    requires
        valid_index_bits(k),
    ensures
        layout_nodes(*final(a)) == layout_nodes(*old(a)).remove(k),
        r is Some <==> layout_nodes(*old(a)).contains_key(k),
        r matches Some(v) ==> v == layout_nodes(*old(a))[k],
{
    a.remove(Index::from_bits(k).unwrap())
}

/// `Arena::len`: the number of clip stacks.
#[verifier::external_body]
pub(crate) fn clips_len(a: &Arena<Vec<WidgetId>>) -> (r: usize)
    requires
        arena_wf(clip_stacks(*a)),
    ensures
        r == clip_stacks(*a).len(),
{
    a.len()
}

/// `Arena::new`: an arena with no clip stacks.
#[verifier::external_body]
pub(crate) fn clips_new() -> (r: Arena<Vec<WidgetId>>)
    ensures
        is_empty_contents(clip_stacks(r)),
{
    Arena::new()
}

/// `Arena::clear`: drops every clip stack.
#[verifier::external_body]
pub(crate) fn clips_clear(a: &mut Arena<Vec<WidgetId>>)
    ensures
        is_empty_contents(clip_stacks(*final(a))),
{
    a.clear()
}

/// `Arena::insert_at`: places the stack `v` at index `k`, replacing whatever
/// occupied `k`'s slot, which it returns.
#[verifier::external_body]
pub(crate) fn clips_insert_at(a: &mut Arena<Vec<WidgetId>>, k: u64, v: Vec<WidgetId>) -> (r:
    Option<Vec<WidgetId>>)
    requires
        valid_index_bits(k),
        slot_occupied(clip_stacks(*old(a)), k) || clip_stacks(*old(a)).len() < u32::MAX,
    ensures
        clip_stacks(*final(a)) == insert_at_spec(clip_stacks(*old(a)), k, v@),
        r is Some <==> slot_occupied(clip_stacks(*old(a)), k),
{
    a.insert_at(Index::from_bits(k).unwrap(), v)
}

/// `Arena::get_mut` on an index that is present: the stack there, to be
/// changed in place.
#[verifier::external_body]
pub(crate) fn clips_get_mut(a: &mut Arena<Vec<WidgetId>>, k: u64) -> (r: &mut Vec<WidgetId>)
    requires
        valid_index_bits(k),
        clip_stacks(*old(a)).contains_key(k),
    ensures
        r@ == clip_stacks(*old(a))[k],
        clip_stacks(*final(a)) == clip_stacks(*old(a)).insert(k, final(r)@),
{
    a.get_mut(Index::from_bits(k).unwrap()).unwrap()
}

} // verus!
