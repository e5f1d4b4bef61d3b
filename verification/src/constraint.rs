//! The constraint abstraction: what a constraint asserts, decoupled from how
//! the sketch stores entities.

use crate::algebra::{assertions_wf, views_of, Assertion, SpecAssertion};
use crate::constraints::ConstraintKind;
use crate::entities::point::PointId;
use crate::entity::{CircleId, LineId};
use crate::error::TextCadError;
use crate::names::nul_free;
use vstd::prelude::*;

verus! {

/// Read-only access to sketch state during constraint application.
///
/// Constraints read entity data only through this capability, so they cannot
/// couple to the orchestrator's internal representation. The three maps are
/// the abstract content of the store: which identifiers resolve, and to which
/// variable names and endpoint identifiers.
pub trait SketchQuery {
    /// The points of the store: each identifier's x and y variable names.
    spec fn point_vars_map(&self) -> Map<PointId, (Seq<char>, Seq<char>)>;

    /// The lines of the store: each identifier's endpoint identifiers.
    spec fn lines_map(&self) -> Map<LineId, (PointId, PointId)>;

    /// The circles of the store: each identifier's center identifier and
    /// radius variable name.
    spec fn circles_map(&self) -> Map<CircleId, (PointId, Seq<char>)>;

    /// The variable names for a point's coordinates; an `EntityError` exactly
    /// when the identifier does not resolve here.
    fn point_variables(&self, point_id: PointId) -> (r: Result<(String, String), TextCadError>)
        ensures
            match r {
                Ok(v) => self.point_vars_map().contains_key(point_id) && v.0@
                    == self.point_vars_map()[point_id].0 && v.1@
                    == self.point_vars_map()[point_id].1 && nul_free(v.0@) && nul_free(v.1@),
                Err(e) => !self.point_vars_map().contains_key(point_id) && e is EntityError,
            },
    ;

    /// The endpoint identifiers of a line; an `EntityError` exactly when the
    /// identifier does not resolve here.
    fn line_endpoints(&self, line_id: LineId) -> (r: Result<(PointId, PointId), TextCadError>)
        ensures
            match r {
                Ok(v) => self.lines_map().contains_key(line_id) && v
                    == self.lines_map()[line_id],
                Err(e) => !self.lines_map().contains_key(line_id) && e is EntityError,
            },
    ;

    /// The center identifier and radius variable name of a circle; an
    /// `EntityError` exactly when the identifier does not resolve here.
    fn circle_center_and_radius(&self, circle_id: CircleId) -> (r: Result<
        (PointId, String),
        TextCadError,
    >)
        ensures
            match r {
                Ok(v) => self.circles_map().contains_key(circle_id) && v.0
                    == self.circles_map()[circle_id].0 && v.1@
                    == self.circles_map()[circle_id].1 && nul_free(v.1@),
                Err(e) => !self.circles_map().contains_key(circle_id) && e is EntityError,
            },
    ;

    /// The named length unknown `length_{name}`, created on demand by the
    /// solver's interning of variable names. An implementation that supports
    /// no named unknowns may refuse.
    fn length_variable(&self, name: &str) -> (r: Result<String, TextCadError>)
        requires
            nul_free(name@),
        ensures
            r matches Ok(v) ==> v@ == "length_"@ + name@ && nul_free(v@),
    ;

    /// The named angle unknown `angle_{name}`; as `length_variable`.
    fn angle_variable(&self, name: &str) -> (r: Result<String, TextCadError>)
        requires
            nul_free(name@),
        ensures
            r matches Ok(v) ==> v@ == "angle_"@ + name@ && nul_free(v@),
    ;
}

/// A geometric constraint: an immutable, self-describing unit of intent that
/// can state its algebraic form against any store.
pub trait Constraint: Sized {
    /// The constraint's parameters denote numbers (rational targets are
    /// well-formed).
    spec fn params_wf(&self) -> bool;

    /// The assertions this constraint emits, as a pure function of the
    /// store's content; `None` exactly when a referenced identifier is
    /// absent.
    spec fn equations_spec(
        &self,
        points: Map<PointId, (Seq<char>, Seq<char>)>,
        lines: Map<LineId, (PointId, PointId)>,
        circles: Map<CircleId, (PointId, Seq<char>)>,
    ) -> Option<Seq<SpecAssertion>>;

    /// The closed storage form of this constraint.
    spec fn kind_spec(&self) -> ConstraintKind;

    /// Translate the constraint into its assertions by reading the store
    /// through `sketch`; fails with an `EntityError` exactly when a
    /// referenced identifier is absent.
    fn apply<Q: SketchQuery>(&self, sketch: &Q) -> (r: Result<Vec<Assertion>, TextCadError>)
        requires
            self.params_wf(),
        ensures
            match r {
                Ok(eqs) => self.equations_spec(
                    sketch.point_vars_map(),
                    sketch.lines_map(),
                    sketch.circles_map(),
                ) == Some(views_of(eqs@)) && assertions_wf(views_of(eqs@)),
                Err(e) => self.equations_spec(
                    sketch.point_vars_map(),
                    sketch.lines_map(),
                    sketch.circles_map(),
                ) is None && e is EntityError,
            },
    ;

    /// Move the constraint into its closed storage form.
    fn into_kind(self) -> (r: ConstraintKind)
        ensures
            r == self.kind_spec(),
            self.params_wf() ==> crate::constraints::kind_params_wf(r),
    ;

    /// The exact text of the diagnostic summary.
    spec fn description_spec(&self) -> Seq<char>;

    /// A human-readable summary for diagnostics; not used for logic.
    fn description(&self) -> (r: String)
        requires
            self.params_wf(),
        ensures
            r@ == self.description_spec(),
    ;
}

/// Entities that can generate constraints involving themselves.
pub trait ConstraintFactory {
    /// Constraints that can be applied to the sketch, in storage form.
    fn constraints(&self) -> Vec<ConstraintKind>;
}

} // verus!
