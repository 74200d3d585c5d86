//! The generational arena of thunderdome, as the library sees it: a finite map
//! from packed index bits to values, with at most one index per slot.
use vstd::prelude::*;
use crate::id::{slot_of, valid_index_bits};

verus! {

/// thunderdome's generational arena, held opaquely; each instantiation the
/// library uses has a name for its contents and wrappers for its methods.
#[verifier::external_type_specification]
#[verifier::external_body]
#[verifier::reject_recursive_types(T)]
pub struct ExArena<T>(thunderdome::Arena<T>);

/// The shape of every arena's contents: finitely many entries, no more than
/// `u32::MAX` of them, each keyed by valid index bits, no two in one slot.
pub open spec fn arena_wf<T>(m: Map<u64, T>) -> bool {
    &&& m.dom().finite()
    &&& m.len() <= u32::MAX
    &&& forall|k: u64| #[trigger] m.contains_key(k) ==> valid_index_bits(k)
    &&& forall|k1: u64, k2: u64|
        #[trigger] m.contains_key(k1) && #[trigger] m.contains_key(k2) && slot_of(k1) == slot_of(
            k2,
        ) ==> k1 == k2
}

/// Whether the contents `m` have no entries.
pub open spec fn is_empty_contents<T>(m: Map<u64, T>) -> bool {
    m == Map::<u64, T>::empty()
}

/// The keys of `m` that share a slot with `k`.
pub open spec fn same_slot_keys<T>(m: Map<u64, T>, k: u64) -> Set<u64> {
    m.dom().filter(|j: u64| slot_of(j) == slot_of(k))
}

/// The contents after placing `v` at index `k`: whatever occupied `k`'s slot,
/// of any generation, is replaced.
pub open spec fn insert_at_spec<T>(m: Map<u64, T>, k: u64, v: T) -> Map<u64, T> {
    m.remove_keys(same_slot_keys(m, k)).insert(k, v)
}

/// Whether some entry occupies the slot of `k`, whatever its generation.
pub open spec fn slot_occupied<T>(m: Map<u64, T>, k: u64) -> bool {
    exists|j: u64| #[trigger] m.contains_key(j) && slot_of(j) == slot_of(k)
}

/// Placing a value keeps the shape of the contents.
pub proof fn lemma_insert_at_wf<T>(m: Map<u64, T>, k: u64, v: T)
    requires
        arena_wf(m),
        valid_index_bits(k),
        slot_occupied(m, k) || m.len() < u32::MAX,
    ensures
        arena_wf(insert_at_spec(m, k, v)),
        slot_occupied(m, k) ==> insert_at_spec(m, k, v).len() == m.len(),
        !slot_occupied(m, k) ==> insert_at_spec(m, k, v).len() == m.len() + 1,
{
    let s = same_slot_keys(m, k);
    let r = m.remove_keys(s);
    assert(s.finite()) by {
        vstd::set_lib::lemma_len_subset(s, m.dom());
    }
    if slot_occupied(m, k) {
        let j = choose|j: u64| #[trigger] m.contains_key(j) && slot_of(j) == slot_of(k);
        assert(s =~= set![j]);
        assert(r.dom() =~= m.dom().remove(j));
    } else {
        assert(s =~= Set::empty());
        assert(r =~= m);
    }
    assert(!r.contains_key(k));
}

} // verus!
