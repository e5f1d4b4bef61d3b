//! Stable, generation-tagged identifiers for sketch entities.
//!
//! An identifier pairs a slot index with a generation counter. The store never
//! frees slots, so the generation only matters defensively: an identifier made
//! against one store, or by hand, does not resolve in another.

use vstd::prelude::*;

verus! {

/// A slot index together with its generation counter.
#[derive(Debug, Clone, Copy, PartialEq, Eq, Structural, PartialOrd, Ord, Hash)]
pub struct EntityIndex {
    pub index: usize,
    pub generation: u64,
}

impl EntityIndex {
    /// Build an identifier from its raw slot index and generation.
    pub fn from_raw_parts(index: usize, generation: u64) -> (r: EntityIndex)
        ensures
            r.index == index,
            r.generation == generation,
    {
        EntityIndex { index, generation }
    }

    /// The raw slot index and generation of this identifier.
    pub fn into_raw_parts(self) -> (r: (usize, u64))
        ensures
            r.0 == self.index,
            r.1 == self.generation,
    {
        (self.index, self.generation)
    }
}

/// Strongly-typed identifier for Line entities.
#[derive(Debug, Clone, Copy, PartialEq, Eq, Structural, PartialOrd, Ord, Hash)]
pub struct LineId(pub EntityIndex);

impl From<EntityIndex> for LineId {
    fn from(index: EntityIndex) -> (r: Self) {
        LineId(index)
    }
}

impl vstd::std_specs::convert::FromSpecImpl<EntityIndex> for LineId {
    open spec fn obeys_from_spec() -> bool {
        true
    }

    open spec fn from_spec(index: EntityIndex) -> LineId {
        LineId(index)
    }
}

impl From<LineId> for EntityIndex {
    fn from(id: LineId) -> (r: Self) {
        id.0
    }
}

impl vstd::std_specs::convert::FromSpecImpl<LineId> for EntityIndex {
    open spec fn obeys_from_spec() -> bool {
        true
    }

    open spec fn from_spec(id: LineId) -> EntityIndex {
        id.0
    }
}

/// Strongly-typed identifier for Circle entities.
#[derive(Debug, Clone, Copy, PartialEq, Eq, Structural, PartialOrd, Ord, Hash)]
pub struct CircleId(pub EntityIndex);

impl From<EntityIndex> for CircleId {
    fn from(index: EntityIndex) -> (r: Self) {
        CircleId(index)
    }
}

impl vstd::std_specs::convert::FromSpecImpl<EntityIndex> for CircleId {
    open spec fn obeys_from_spec() -> bool {
        true
    }

    open spec fn from_spec(index: EntityIndex) -> CircleId {
        CircleId(index)
    }
}

impl From<CircleId> for EntityIndex {
    fn from(id: CircleId) -> (r: Self) {
        id.0
    }
}

impl vstd::std_specs::convert::FromSpecImpl<CircleId> for EntityIndex {
    open spec fn obeys_from_spec() -> bool {
        true
    }

    open spec fn from_spec(id: CircleId) -> EntityIndex {
        id.0
    }
}

} // verus!

use crate::decimal::{dec_seq, push_decimal, push_decimal_usize};
use vstd::string::StringExecFns;

verus! {

impl EntityIndex {
    /// The raw-parts text of this identifier: `index_generation`.
    pub open spec fn raw_seq(self) -> Seq<char> {
        dec_seq(self.index as nat) + seq!['_'] + dec_seq(self.generation as nat)
    }

    /// Append the raw-parts text of this identifier.
    pub fn push_raw(self, s: &mut String)
        ensures
            final(s)@ == old(s)@ + self.raw_seq(),
    {
        push_decimal_usize(s, self.index);
        proof {
            reveal_strlit("_");
            assert("_"@ =~= seq!['_']);
        }
        s.append("_");
        push_decimal(s, self.generation);
        proof {
            assert(old(s)@ + self.raw_seq() =~= old(s)@ + dec_seq(self.index as nat) + seq!['_']
                + dec_seq(self.generation as nat));
        }
    }
}

} // verus!
