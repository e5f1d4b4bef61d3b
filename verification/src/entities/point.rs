//! The point entity: two symbolic coordinate unknowns behind one identifier.

use crate::decimal::{dec_seq, push_decimal, push_decimal_usize};
use crate::entity::EntityIndex;
use crate::names::{lemma_dec_seq_nul_free, lemma_nul_free_concat, nul_free};
use vstd::prelude::*;
use vstd::string::StringExecFns;

verus! {

/// Strongly-typed identifier for Point2D entities.
#[derive(Debug, Clone, Copy, PartialEq, Eq, Structural, PartialOrd, Ord, Hash)]
pub struct PointId(pub EntityIndex);

impl From<EntityIndex> for PointId {
    fn from(index: EntityIndex) -> (r: Self) {
        PointId(index)
    }
}

impl vstd::std_specs::convert::FromSpecImpl<EntityIndex> for PointId {
    open spec fn obeys_from_spec() -> bool {
        true
    }

    open spec fn from_spec(index: EntityIndex) -> PointId {
        PointId(index)
    }
}

impl From<PointId> for EntityIndex {
    fn from(id: PointId) -> (r: Self) {
        id.0
    }
}

impl vstd::std_specs::convert::FromSpecImpl<PointId> for EntityIndex {
    open spec fn obeys_from_spec() -> bool {
        true
    }

    open spec fn from_spec(id: PointId) -> EntityIndex {
        id.0
    }
}

/// A 2D point whose coordinates are symbolic unknowns: each coordinate is
/// carried as the name of a real-valued solver variable, not as a number.
#[derive(Debug, Clone)]
pub struct Point2D {
    /// Unique identifier for this point.
    pub id: PointId,
    /// Name of the solver variable for the x coordinate.
    pub x: String,
    /// Name of the solver variable for the y coordinate.
    pub y: String,
    /// Optional name for debugging and display.
    pub name: Option<String>,
}

impl Point2D {
    /// The stem from which this point's variable names are derived: the
    /// display name if one was given, else a generic prefix plus the raw
    /// slot index.
    pub open spec fn base_spec(id: PointId, name: Option<String>) -> Seq<char> {
        match name {
            Some(n) => n@,
            None => "p"@ + dec_seq(id.0.index as nat),
        }
    }

    /// Create a point: its coordinate unknowns are named `{base}_x` and
    /// `{base}_y`.
    pub fn new(id: PointId, name: Option<String>) -> (r: Point2D)
        requires
            name matches Some(n) ==> nul_free(n@),
        ensures
            r.id == id,
            r.name == name,
            r.x@ == Self::base_spec(id, name) + "_x"@,
            r.y@ == Self::base_spec(id, name) + "_y"@,
            nul_free(r.x@),
            nul_free(r.y@),
    {
        let base: String = match &name {
            Some(n) => n.clone(),
            None => {
                let mut s = "p".to_owned();
                push_decimal_usize(&mut s, id.0.index);
                proof {
                    reveal_strlit("p");
                    lemma_dec_seq_nul_free(id.0.index as nat);
                    lemma_nul_free_concat("p"@, dec_seq(id.0.index as nat));
                }
                s
            },
        };
        let mut x = base.clone();
        x.append("_x");
        let mut y = base;
        y.append("_y");
        proof {
            reveal_strlit("_x");
            reveal_strlit("_y");
            lemma_nul_free_concat(Self::base_spec(id, name), "_x"@);
            lemma_nul_free_concat(Self::base_spec(id, name), "_y"@);
        }
        Point2D { id, x, y, name }
    }

    /// The display name of this point: its given name, or `Point` followed by
    /// the raw parts of its identifier.
    pub open spec fn display_name_spec(&self) -> Seq<char> {
        match self.name {
            Some(n) => n@,
            None => "Point"@ + dec_seq(self.id.0.index as nat) + "_"@ + dec_seq(
                self.id.0.generation as nat,
            ),
        }
    }

    /// Get the point's name, or a default derived from its identifier.
    pub fn display_name(&self) -> (r: String)
        ensures
            r@ == self.display_name_spec(),
    {
        match &self.name {
            Some(n) => n.clone(),
            None => {
                let mut s = "Point".to_owned();
                push_decimal_usize(&mut s, self.id.0.index);
                s.append("_");
                push_decimal(&mut s, self.id.0.generation);
                s
            },
        }
    }
}

} // verus!
