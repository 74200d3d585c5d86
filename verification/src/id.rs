//! Widget identifiers: the packed bits of a generational arena index.
use vstd::prelude::*;

verus! {

/// `2^32`: the bits of an index are its generation times this, plus its slot.
pub open spec fn slot_base() -> int {
    0x1_0000_0000
}

/// The slot that the packed index `bits` names.
pub open spec fn slot_of(bits: u64) -> int {
    bits as int % slot_base()
}

/// The generation that the packed index `bits` carries.
pub open spec fn generation_of(bits: u64) -> int {
    bits as int / slot_base()
}

/// Whether `bits` encode an arena index: a valid index has a nonzero generation.
pub open spec fn valid_index_bits(bits: u64) -> bool {
    generation_of(bits) != 0
}

/// Identifies a widget. It carries the packed bits of the widget's arena index
/// (generation in the high half, slot in the low half).
#[derive(Clone, Copy, Debug, PartialEq, Eq, Structural, Hash)]
pub struct WidgetId {
    bits: u64,
}

impl WidgetId {
    /// The packed index bits of this id.
    pub closed spec fn spec_bits(self) -> u64 {
        self.bits
    }

    /// Two ids are the same exactly when their bits are.
    pub proof fn lemma_bits_identify(a: WidgetId, b: WidgetId)
        ensures
            (a.spec_bits() == b.spec_bits()) == (a == b),
    {
    }

    #[verifier::type_invariant]
    spec fn inv(self) -> bool {
        valid_index_bits(self.bits)
    }

    /// The id whose index is encoded by `bits`, or `None` when `bits` carry a
    /// zero generation and so encode no index.
    pub fn from_bits(bits: u64) -> (r: Option<WidgetId>)
        ensures
            r is Some <==> valid_index_bits(bits),
            r matches Some(id) ==> id.spec_bits() == bits,
    {
        if bits >> 32u64 == 0 {
            assert(generation_of(bits) == 0) by (bit_vector)
                requires bits >> 32u64 == 0u64;
            None
        } else {
            assert(generation_of(bits) != 0) by (bit_vector)
                requires bits >> 32u64 != 0u64;
            Some(WidgetId { bits })
        }
    }

    /// The packed index bits of this id.
    pub fn to_bits(self) -> (r: u64)
        ensures
            r == self.spec_bits(),
            valid_index_bits(r),
    {
        proof {
            use_type_invariant(self);
        }
        self.bits
    }
}

} // verus!
