//! The circle entity: a center point reference and one symbolic radius unknown.

use crate::decimal::{dec_seq, push_decimal, push_decimal_usize};
use crate::entities::point::PointId;
use crate::entity::CircleId;
use crate::names::{lemma_dec_seq_nul_free, lemma_nul_free_concat, nul_free};
use vstd::prelude::*;
use vstd::string::StringExecFns;

verus! {

/// A 2D circle defined by a center point and a symbolic radius: the radius is
/// carried as the name of a real-valued solver variable, not as a number.
#[derive(Debug, Clone)]
pub struct Circle {
    /// Unique identifier for this circle.
    pub id: CircleId,
    /// Center point of the circle.
    pub center: PointId,
    /// Name of the solver variable for the radius.
    pub radius: String,
    /// Optional name for debugging and display.
    pub name: Option<String>,
}

impl Circle {
    /// The stem from which this circle's radius variable name is derived: the
    /// display name if one was given, else a generic prefix plus the raw
    /// slot index.
    pub open spec fn base_spec(id: CircleId, name: Option<String>) -> Seq<char> {
        match name {
            Some(n) => n@,
            None => "c"@ + dec_seq(id.0.index as nat),
        }
    }

    /// Create a circle: its radius unknown is named `{base}_radius`.
    pub fn new(id: CircleId, center: PointId, name: Option<String>) -> (r: Circle)
        requires
            name matches Some(n) ==> nul_free(n@),
        ensures
            r.id == id,
            r.center == center,
            r.name == name,
            r.radius@ == Self::base_spec(id, name) + "_radius"@,
            nul_free(r.radius@),
    {
        let base: String = match &name {
            Some(n) => n.clone(),
            None => {
                let mut s = "c".to_owned();
                push_decimal_usize(&mut s, id.0.index);
                proof {
                    reveal_strlit("c");
                    lemma_dec_seq_nul_free(id.0.index as nat);
                    lemma_nul_free_concat("c"@, dec_seq(id.0.index as nat));
                }
                s
            },
        };
        let mut radius = base;
        radius.append("_radius");
        proof {
            reveal_strlit("_radius");
            lemma_nul_free_concat(Self::base_spec(id, name), "_radius"@);
        }
        Circle { id, center, radius, name }
    }

    /// The display name of this circle: its given name, or `Circle` followed
    /// by the raw parts of its identifier.
    pub open spec fn display_name_spec(&self) -> Seq<char> {
        match self.name {
            Some(n) => n@,
            None => "Circle"@ + dec_seq(self.id.0.index as nat) + "_"@ + dec_seq(
                self.id.0.generation as nat,
            ),
        }
    }

    /// Get the circle's name, or a default derived from its identifier.
    pub fn display_name(&self) -> (r: String)
        ensures
            r@ == self.display_name_spec(),
    {
        match &self.name {
            Some(n) => n.clone(),
            None => {
                let mut s = "Circle".to_owned();
                push_decimal_usize(&mut s, self.id.0.index);
                s.append("_");
                push_decimal(&mut s, self.id.0.generation);
                s
            },
        }
    }

    /// The identifier of the center point.
    pub fn center_point(&self) -> (r: PointId)
        ensures
            r == self.center,
    {
        self.center
    }
}

} // verus!
