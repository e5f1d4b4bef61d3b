//! The sketch orchestrator: owns the entity store, the solver session and the
//! ordered constraint list, and drives the solve pipeline.

use crate::algebra::{views_of, SpecAssertion};
use crate::backend::{assert_into, solver_check, solver_get_model, solver_new, SatStatus};
use crate::constraint::{Constraint, SketchQuery};
use crate::constraints::{apply_kind, kind_equations, kind_params_wf, ConstraintKind};
use crate::entities::circle::Circle;
use crate::entities::line::Line;
use crate::entities::point::{Point2D, PointId};
use crate::entity::{CircleId, EntityIndex, LineId};
use crate::error::TextCadError;
use crate::names::{lemma_nul_free_concat, nul_free};
use crate::solution::Solution;
use vstd::prelude::*;
use vstd::string::StringExecFns;

verus! {

/// Map a satisfiability outcome to the pipeline's result: a satisfiable
/// system is passed through, a proven-unsatisfiable one is over-constrained,
/// and an undecided one is a solver failure.
pub fn interpret_check(status: SatStatus) -> (r: Result<SatStatus, TextCadError>)
    ensures
        status == SatStatus::Sat ==> r == Ok::<SatStatus, TextCadError>(SatStatus::Sat),
        status == SatStatus::Unsat ==> r == Err::<SatStatus, TextCadError>(
            TextCadError::OverConstrained,
        ),
        status == SatStatus::Unknown ==> (r matches Err(e) && e matches TextCadError::SolverError(
            m,
        ) && m@ == "Z3 solver returned unknown result"@),
{
    match status {
        SatStatus::Sat => Ok(SatStatus::Sat),
        SatStatus::Unsat => Err(TextCadError::OverConstrained),
        SatStatus::Unknown => Err(
            TextCadError::SolverError("Z3 solver returned unknown result".to_owned()),
        ),
    }
}

/// The first `n` stored constraints all resolve their references against the
/// given store content.
pub open spec fn all_emit(
    cs: Seq<ConstraintKind>,
    points: Map<PointId, (Seq<char>, Seq<char>)>,
    lines: Map<LineId, (PointId, PointId)>,
    circles: Map<CircleId, (PointId, Seq<char>)>,
    n: int,
) -> bool {
    forall|i: int| 0 <= i < n ==> kind_equations(#[trigger] cs[i], points, lines, circles) is Some
}

/// The concatenation of the assertions emitted by the first `n` stored
/// constraints, where they all resolve.
pub open spec fn emitted_upto(
    cs: Seq<ConstraintKind>,
    points: Map<PointId, (Seq<char>, Seq<char>)>,
    lines: Map<LineId, (PointId, PointId)>,
    circles: Map<CircleId, (PointId, Seq<char>)>,
    n: int,
) -> Seq<SpecAssertion>
    decreases n,
{
    if n <= 0 {
        Seq::empty()
    } else {
        emitted_upto(cs, points, lines, circles, n - 1) + (kind_equations(
            cs[n - 1],
            points,
            lines,
            circles,
        )->Some_0)
    }
}

/// The sketch: a solver session, the entity slot tables, and the accumulated
/// constraints. Entity identifiers are the slot index tagged with generation
/// zero; slots are never freed, so a foreign or hand-made identifier simply
/// fails to resolve.
pub struct Sketch {
    /// The owned solver session; re-solving reuses it, so re-applying the
    /// constraints accumulates duplicate (idempotent) assertions.
    solver: z3::Solver,
    /// Point entities, by slot.
    points: Vec<Point2D>,
    /// Line entities, by slot.
    lines: Vec<Line>,
    /// Circle entities, by slot.
    circles: Vec<Circle>,
    /// The accumulated constraints, in insertion order.
    constraints: Vec<ConstraintKind>,
    /// Everything `solve_constraints` has asserted into the session so far.
    asserted: Ghost<Seq<SpecAssertion>>,
}

impl Sketch {
    /// Every entity sits in the slot its identifier names, variable names are
    /// NUL-free, and stored constraints have denoting parameters.
    #[verifier::type_invariant]
    spec fn inv(&self) -> bool {
        &&& forall|i: int|
            0 <= i < self.points@.len() ==> (#[trigger] self.points@[i]).id == PointId(
                EntityIndex { index: i as usize, generation: 0 },
            ) && nul_free(self.points@[i].x@) && nul_free(self.points@[i].y@)
        &&& forall|i: int|
            0 <= i < self.lines@.len() ==> (#[trigger] self.lines@[i]).id == LineId(
                EntityIndex { index: i as usize, generation: 0 },
            )
        &&& forall|i: int|
            0 <= i < self.circles@.len() ==> (#[trigger] self.circles@[i]).id == CircleId(
                EntityIndex { index: i as usize, generation: 0 },
            ) && nul_free(self.circles@[i].radius@)
        &&& forall|i: int|
            0 <= i < self.constraints@.len() ==> kind_params_wf(#[trigger] self.constraints@[i])
    }

    /// The stored point entity of a resolving identifier.
    pub closed spec fn point_entity(&self, id: PointId) -> Point2D {
        self.points@[id.0.index as int]
    }

    /// The stored line entity of a resolving identifier.
    pub closed spec fn line_entity(&self, id: LineId) -> Line {
        self.lines@[id.0.index as int]
    }

    /// The stored circle entity of a resolving identifier.
    pub closed spec fn circle_entity(&self, id: CircleId) -> Circle {
        self.circles@[id.0.index as int]
    }

    /// The accumulated constraints, in insertion order.
    pub closed spec fn constraints_seq(&self) -> Seq<ConstraintKind> {
        self.constraints@
    }

    /// Everything `solve_constraints` has asserted into the session so far.
    pub closed spec fn asserted_trail(&self) -> Seq<SpecAssertion> {
        self.asserted@
    }

    /// Create a new sketch with a fresh solver session and empty stores.
    pub fn new() -> (r: Sketch)
        ensures
            r.point_vars_map() == Map::<PointId, (Seq<char>, Seq<char>)>::empty(),
            r.lines_map() == Map::<LineId, (PointId, PointId)>::empty(),
            r.circles_map() == Map::<CircleId, (PointId, Seq<char>)>::empty(),
            r.constraints_seq() == Seq::<ConstraintKind>::empty(),
            r.asserted_trail() == Seq::<SpecAssertion>::empty(),
    {
        let r = Sketch {
            solver: solver_new(),
            points: Vec::new(),
            lines: Vec::new(),
            circles: Vec::new(),
            constraints: Vec::new(),
            asserted: Ghost(Seq::empty()),
        };
        proof {
            assert(r.point_vars_map() =~= Map::<PointId, (Seq<char>, Seq<char>)>::empty());
            assert(r.lines_map() =~= Map::<LineId, (PointId, PointId)>::empty());
            assert(r.circles_map() =~= Map::<CircleId, (PointId, Seq<char>)>::empty());
        }
        r
    }

    /// The underlying solver session. Assertions can be added to it directly,
    /// outside the constraint list: the solver takes them through a shared
    /// reference.
    pub fn solver(&self) -> &z3::Solver {
        &self.solver
    }

    /// All points, in slot order.
    pub fn points(&self) -> (r: &Vec<Point2D>)
        ensures
            forall|i: int|
                0 <= i < r@.len() ==> (#[trigger] r@[i]).id == PointId(
                    EntityIndex { index: i as usize, generation: 0 },
                ) && self.point_vars_map().contains_key(r@[i].id) && r@[i] == self.point_entity(
                    r@[i].id,
                ),
            forall|id: PointId| self.point_vars_map().contains_key(id) ==> id.0.index < r@.len(),
    {
        let entity_count = self.points.len();
        proof {
            use_type_invariant(&*self);
            assert(self.points@.len() == entity_count);
            assert forall|i: int|
                0 <= i < self.points@.len() implies self.point_vars_map().contains_key(
                (#[trigger] self.points@[i]).id,
            ) && self.points@[i] == self.point_entity(self.points@[i].id) by {
                assert(self.points@[i].id == PointId(
                    EntityIndex { index: i as usize, generation: 0 },
                ));
            }
        }
        &self.points
    }

    /// All lines, in slot order.
    pub fn lines(&self) -> (r: &Vec<Line>)
        ensures
            forall|i: int|
                0 <= i < r@.len() ==> (#[trigger] r@[i]).id == LineId(
                    EntityIndex { index: i as usize, generation: 0 },
                ) && self.lines_map().contains_key(r@[i].id) && r@[i] == self.line_entity(
                    r@[i].id,
                ),
            forall|id: LineId| self.lines_map().contains_key(id) ==> id.0.index < r@.len(),
    {
        let entity_count = self.lines.len();
        proof {
            use_type_invariant(&*self);
            assert(self.lines@.len() == entity_count);
            assert forall|i: int|
                0 <= i < self.lines@.len() implies self.lines_map().contains_key(
                (#[trigger] self.lines@[i]).id,
            ) && self.lines@[i] == self.line_entity(self.lines@[i].id) by {
                assert(self.lines@[i].id == LineId(
                    EntityIndex { index: i as usize, generation: 0 },
                ));
            }
        }
        &self.lines
    }

    /// All circles, in slot order.
    pub fn circles(&self) -> (r: &Vec<Circle>)
        ensures
            forall|i: int|
                0 <= i < r@.len() ==> (#[trigger] r@[i]).id == CircleId(
                    EntityIndex { index: i as usize, generation: 0 },
                ) && self.circles_map().contains_key(r@[i].id) && r@[i] == self.circle_entity(
                    r@[i].id,
                ),
            forall|id: CircleId| self.circles_map().contains_key(id) ==> id.0.index < r@.len(),
    {
        let entity_count = self.circles.len();
        proof {
            use_type_invariant(&*self);
            assert(self.circles@.len() == entity_count);
            assert forall|i: int|
                0 <= i < self.circles@.len() implies self.circles_map().contains_key(
                (#[trigger] self.circles@[i]).id,
            ) && self.circles@[i] == self.circle_entity(self.circles@[i].id) by {
                assert(self.circles@[i].id == CircleId(
                    EntityIndex { index: i as usize, generation: 0 },
                ));
            }
        }
        &self.circles
    }

    /// Check the satisfiability of the solver's current state, as the solver
    /// reports it.
    pub fn check(&mut self) -> (r: Result<SatStatus, TextCadError>)
        ensures
            *final(self) == *old(self),
            r is Ok,
    {
        Ok(solver_check(&self.solver))
    }

    /// Check the solver's current state and interpret the outcome: `Ok(Sat)`
    /// on success, `OverConstrained` on proven unsatisfiability, a
    /// `SolverError` when the solver could not decide.
    pub fn solve(&mut self) -> (r: Result<SatStatus, TextCadError>)
        ensures
            *final(self) == *old(self),
            match r {
                Ok(s) => s == SatStatus::Sat,
                Err(e) => e == TextCadError::OverConstrained || e is SolverError,
            },
    {
        let status = solver_check(&self.solver);
        interpret_check(status)
    }

    /// Add a new point: a fresh identifier over two fresh coordinate
    /// unknowns named from `name` or from the slot index.
    pub fn add_point(&mut self, name: Option<String>) -> (r: PointId)
        requires
            name matches Some(n) ==> nul_free(n@),
        ensures
            r.0.generation == 0,
            !old(self).point_vars_map().contains_key(r),
            final(self).point_vars_map() == old(self).point_vars_map().insert(
                r,
                (
                    Point2D::base_spec(r, name) + "_x"@,
                    Point2D::base_spec(r, name) + "_y"@,
                ),
            ),
            final(self).point_entity(r).id == r,
            final(self).point_entity(r).name == name,
            final(self).point_entity(r).x@ == Point2D::base_spec(r, name) + "_x"@,
            final(self).point_entity(r).y@ == Point2D::base_spec(r, name) + "_y"@,
            final(self).lines_map() == old(self).lines_map(),
            final(self).circles_map() == old(self).circles_map(),
            final(self).constraints_seq() == old(self).constraints_seq(),
            final(self).asserted_trail() == old(self).asserted_trail(),
    {
        proof {
            use_type_invariant(&*self);
        }
        let id = PointId(EntityIndex { index: self.points.len(), generation: 0 });
        let p = Point2D::new(id, name);
        let mut slots: Vec<Point2D> = Vec::new();
        std::mem::swap(&mut self.points, &mut slots);
        slots.push(p);
        std::mem::swap(&mut self.points, &mut slots);
        proof {
            assert(final(self).point_vars_map() =~= old(self).point_vars_map().insert(
                id,
                (
                    Point2D::base_spec(id, name) + "_x"@,
                    Point2D::base_spec(id, name) + "_y"@,
                ),
            ));
            assert(final(self).lines_map() =~= old(self).lines_map());
            assert(final(self).circles_map() =~= old(self).circles_map());
        }
        id
    }

    /// Get a reference to a point by its identifier; `None` when the
    /// identifier does not resolve in this store.
    pub fn get_point(&self, id: PointId) -> (r: Option<&Point2D>)
        ensures
            match r {
                Some(p) => self.point_vars_map().contains_key(id) && *p == self.point_entity(id)
                    && p.id == id && p.x@ == self.point_vars_map()[id].0 && p.y@
                    == self.point_vars_map()[id].1,
                None => !self.point_vars_map().contains_key(id),
            },
    {
        proof {
            use_type_invariant(&*self);
        }
        if id.0.generation == 0 && id.0.index < self.points.len() {
            Some(&self.points[id.0.index])
        } else {
            None
        }
    }

    /// Add a new line connecting two points; the endpoints' validity is
    /// checked lazily, at constraint application, not here.
    pub fn add_line(&mut self, start: PointId, end: PointId, name: Option<String>) -> (r: LineId)
        ensures
            r.0.generation == 0,
            !old(self).lines_map().contains_key(r),
            final(self).lines_map() == old(self).lines_map().insert(r, (start, end)),
            final(self).line_entity(r).id == r,
            final(self).line_entity(r).start == start,
            final(self).line_entity(r).end == end,
            final(self).line_entity(r).name == name,
            final(self).point_vars_map() == old(self).point_vars_map(),
            final(self).circles_map() == old(self).circles_map(),
            final(self).constraints_seq() == old(self).constraints_seq(),
            final(self).asserted_trail() == old(self).asserted_trail(),
            forall|id: PointId| final(self).point_entity(id) == old(self).point_entity(id),
    {
        proof {
            use_type_invariant(&*self);
        }
        let id = LineId(EntityIndex { index: self.lines.len(), generation: 0 });
        let line = Line::new(id, start, end, name);
        let mut slots: Vec<Line> = Vec::new();
        std::mem::swap(&mut self.lines, &mut slots);
        slots.push(line);
        std::mem::swap(&mut self.lines, &mut slots);
        proof {
            assert(final(self).lines_map() =~= old(self).lines_map().insert(id, (start, end)));
            assert(final(self).point_vars_map() =~= old(self).point_vars_map());
            assert(final(self).circles_map() =~= old(self).circles_map());
        }
        id
    }

    /// Get a reference to a line by its identifier; `None` when the
    /// identifier does not resolve in this store.
    pub fn get_line(&self, id: LineId) -> (r: Option<&Line>)
        ensures
            match r {
                Some(line) => self.lines_map().contains_key(id) && *line == self.line_entity(id)
                    && line.id == id && (line.start, line.end) == self.lines_map()[id],
                None => !self.lines_map().contains_key(id),
            },
    {
        proof {
            use_type_invariant(&*self);
        }
        if id.0.generation == 0 && id.0.index < self.lines.len() {
            Some(&self.lines[id.0.index])
        } else {
            None
        }
    }

    /// Add a new circle around a center point, with a fresh radius unknown
    /// named from `name` or from the slot index.
    pub fn add_circle(&mut self, center: PointId, name: Option<String>) -> (r: CircleId)
        requires
            name matches Some(n) ==> nul_free(n@),
        ensures
            r.0.generation == 0,
            !old(self).circles_map().contains_key(r),
            final(self).circles_map() == old(self).circles_map().insert(
                r,
                (center, Circle::base_spec(r, name) + "_radius"@),
            ),
            final(self).circle_entity(r).id == r,
            final(self).circle_entity(r).center == center,
            final(self).circle_entity(r).name == name,
            final(self).circle_entity(r).radius@ == Circle::base_spec(r, name) + "_radius"@,
            final(self).point_vars_map() == old(self).point_vars_map(),
            final(self).lines_map() == old(self).lines_map(),
            final(self).constraints_seq() == old(self).constraints_seq(),
            final(self).asserted_trail() == old(self).asserted_trail(),
    {
        proof {
            use_type_invariant(&*self);
        }
        let id = CircleId(EntityIndex { index: self.circles.len(), generation: 0 });
        let circle = Circle::new(id, center, name);
        let mut slots: Vec<Circle> = Vec::new();
        std::mem::swap(&mut self.circles, &mut slots);
        slots.push(circle);
        std::mem::swap(&mut self.circles, &mut slots);
        proof {
            assert(final(self).circles_map() =~= old(self).circles_map().insert(
                id,
                (center, Circle::base_spec(id, name) + "_radius"@),
            ));
            assert(final(self).point_vars_map() =~= old(self).point_vars_map());
            assert(final(self).lines_map() =~= old(self).lines_map());
        }
        id
    }

    /// Get a reference to a circle by its identifier; `None` when the
    /// identifier does not resolve in this store.
    pub fn get_circle(&self, id: CircleId) -> (r: Option<&Circle>)
        ensures
            match r {
                Some(c) => self.circles_map().contains_key(id) && *c == self.circle_entity(id)
                    && c.id == id && c.center == self.circles_map()[id].0 && c.radius@
                    == self.circles_map()[id].1,
                None => !self.circles_map().contains_key(id),
            },
    {
        proof {
            use_type_invariant(&*self);
        }
        if id.0.generation == 0 && id.0.index < self.circles.len() {
            Some(&self.circles[id.0.index])
        } else {
            None
        }
    }

    /// Append a constraint to the list; pure accumulation, always succeeds.
    pub fn add_constraint<C: Constraint>(&mut self, constraint: C)
        requires
            constraint.params_wf(),
        ensures
            final(self).constraints_seq() == old(self).constraints_seq().push(
                constraint.kind_spec(),
            ),
            final(self).point_vars_map() == old(self).point_vars_map(),
            final(self).lines_map() == old(self).lines_map(),
            final(self).circles_map() == old(self).circles_map(),
            final(self).asserted_trail() == old(self).asserted_trail(),
    {
        proof {
            use_type_invariant(&*self);
        }
        let kind = constraint.into_kind();
        let mut list: Vec<ConstraintKind> = Vec::new();
        std::mem::swap(&mut self.constraints, &mut list);
        list.push(kind);
        std::mem::swap(&mut self.constraints, &mut list);
    }

    /// Apply every accumulated constraint in insertion order, then check.
    /// The first resolution failure aborts and is returned; the assertions
    /// emitted before it remain asserted (no rollback). On full application
    /// the check's outcome is interpreted as in [`Sketch::solve`].
    pub fn solve_constraints(&mut self) -> (r: Result<SatStatus, TextCadError>)
        ensures
            final(self).point_vars_map() == old(self).point_vars_map(),
            final(self).lines_map() == old(self).lines_map(),
            final(self).circles_map() == old(self).circles_map(),
            final(self).constraints_seq() == old(self).constraints_seq(),
            match r {
                Ok(s) => s == SatStatus::Sat && all_emit(
                    old(self).constraints_seq(),
                    old(self).point_vars_map(),
                    old(self).lines_map(),
                    old(self).circles_map(),
                    old(self).constraints_seq().len() as int,
                ) && final(self).asserted_trail() == old(self).asserted_trail() + emitted_upto(
                    old(self).constraints_seq(),
                    old(self).point_vars_map(),
                    old(self).lines_map(),
                    old(self).circles_map(),
                    old(self).constraints_seq().len() as int,
                ),
                Err(e) => {
                    ||| (e is EntityError && exists|j: int|
                        0 <= j < old(self).constraints_seq().len() && all_emit(
                            old(self).constraints_seq(),
                            old(self).point_vars_map(),
                            old(self).lines_map(),
                            old(self).circles_map(),
                            j,
                        ) && kind_equations(
                            old(self).constraints_seq()[j],
                            old(self).point_vars_map(),
                            old(self).lines_map(),
                            old(self).circles_map(),
                        ) is None && final(self).asserted_trail() == old(self).asserted_trail()
                            + emitted_upto(
                            old(self).constraints_seq(),
                            old(self).point_vars_map(),
                            old(self).lines_map(),
                            old(self).circles_map(),
                            j,
                        ))
                    ||| ((e == TextCadError::OverConstrained || e is SolverError) && all_emit(
                        old(self).constraints_seq(),
                        old(self).point_vars_map(),
                        old(self).lines_map(),
                        old(self).circles_map(),
                        old(self).constraints_seq().len() as int,
                    ) && final(self).asserted_trail() == old(self).asserted_trail()
                        + emitted_upto(
                        old(self).constraints_seq(),
                        old(self).point_vars_map(),
                        old(self).lines_map(),
                        old(self).circles_map(),
                        old(self).constraints_seq().len() as int,
                    ))
                },
            },
    {
        proof {
            use_type_invariant(&*self);
        }
        let ghost pvm = self.point_vars_map();
        let ghost lm = self.lines_map();
        let ghost cm = self.circles_map();
        let n = self.constraints.len();
        let mut i: usize = 0;
        while i < n
            invariant
                i <= n,
                n == self.constraints@.len(),
                self.points == old(self).points,
                self.lines == old(self).lines,
                self.circles == old(self).circles,
                self.constraints == old(self).constraints,
                self.solver == old(self).solver,
                pvm == self.point_vars_map(),
                lm == self.lines_map(),
                cm == self.circles_map(),
                all_emit(self.constraints@, pvm, lm, cm, i as int),
                self.asserted@ == old(self).asserted@ + emitted_upto(
                    self.constraints@,
                    pvm,
                    lm,
                    cm,
                    i as int,
                ),
            decreases n - i,
        {
            proof {
                use_type_invariant(&*self);
            }
            let c = self.constraints[i];
            let eqs = match apply_kind(&c, &*self) {
                Ok(eqs) => eqs,
                Err(e) => {
                    proof {
                        let j = i as int;
                        assert(all_emit(old(self).constraints_seq(), pvm, lm, cm, j));
                    }
                    return Err(e);
                },
            };
            let m = eqs.len();
            let mut k: usize = 0;
            while k < m
                invariant
                    k <= m,
                    m == eqs@.len(),
                    crate::algebra::assertions_wf(views_of(eqs@)),
                decreases m - k,
            {
                proof {
                    assert(views_of(eqs@)[k as int] == eqs@[k as int]@);
                }
                assert_into(&self.solver, &eqs[k]);
                k = k + 1;
            }
            proof {
                self.asserted@ = self.asserted@ + views_of(eqs@);
                assert(emitted_upto(self.constraints@, pvm, lm, cm, i as int + 1) =~= emitted_upto(
                    self.constraints@,
                    pvm,
                    lm,
                    cm,
                    i as int,
                ) + views_of(eqs@));
                assert(old(self).asserted@ + emitted_upto(
                    self.constraints@,
                    pvm,
                    lm,
                    cm,
                    i as int,
                ) + views_of(eqs@) =~= old(self).asserted@ + emitted_upto(
                    self.constraints@,
                    pvm,
                    lm,
                    cm,
                    i as int + 1,
                ));
            }
            i = i + 1;
        }
        let status = solver_check(&self.solver);
        interpret_check(status)
    }

    /// Apply all constraints, solve, and eagerly extract coordinates for
    /// every point and parameters for every line. Circle extraction is
    /// opt-in, on demand, because it needs the already-extracted center.
    pub fn solve_and_extract(&mut self) -> (r: Result<Solution, TextCadError>)
        ensures
            final(self).point_vars_map() == old(self).point_vars_map(),
            final(self).lines_map() == old(self).lines_map(),
            final(self).circles_map() == old(self).circles_map(),
            final(self).constraints_seq() == old(self).constraints_seq(),
            match r {
                Ok(solution) => (forall|id: PointId|
                    old(self).point_vars_map().contains_key(id)
                        ==> solution.points_view().contains_key(id)) && (forall|id: LineId|
                    old(self).lines_map().contains_key(id) ==> solution.lines_view().contains_key(
                        id,
                    )),
                Err(e) => e is EntityError || e == TextCadError::OverConstrained
                    || e is SolverError || e is SolutionError,
            },
    {
        proof {
            use_type_invariant(&*self);
        }
        match self.solve_constraints() {
            Ok(_) => (),
            Err(e) => {
                return Err(e);
            },
        }
        let model = match solver_get_model(&self.solver) {
            Some(m) => m,
            None => {
                return Err(
                    TextCadError::SolverError("No model available after solving".to_owned()),
                );
            },
        };
        let mut solution = Solution::new(model);
        proof {
            use_type_invariant(&*self);
        }
        let ghost snap = *self;
        let pn = self.points.len();
        let mut i: usize = 0;
        while i < pn
            invariant
                i <= pn,
                pn == self.points@.len(),
                *self == snap,
                self.inv(),
                self.point_vars_map() == old(self).point_vars_map(),
                self.lines_map() == old(self).lines_map(),
                self.circles_map() == old(self).circles_map(),
                self.constraints_seq() == old(self).constraints_seq(),
                forall|j: int|
                    0 <= j < i ==> solution.points_view().contains_key(
                        (#[trigger] self.points@[j]).id,
                    ),
            decreases pn - i,
        {
            let p = &self.points[i];
            match solution.extract_point_coordinates(p.id, p.x.as_str(), p.y.as_str()) {
                Ok(_) => (),
                Err(e) => {
                    return Err(e);
                },
            }
            i = i + 1;
        }
        let ln = self.lines.len();
        let mut k: usize = 0;
        while k < ln
            invariant
                k <= ln,
                ln == self.lines@.len(),
                *self == snap,
                self.inv(),
                self.point_vars_map() == old(self).point_vars_map(),
                self.lines_map() == old(self).lines_map(),
                self.circles_map() == old(self).circles_map(),
                self.constraints_seq() == old(self).constraints_seq(),
                forall|j: int|
                    0 <= j < self.points@.len() ==> solution.points_view().contains_key(
                        (#[trigger] self.points@[j]).id,
                    ),
                forall|j: int|
                    0 <= j < k ==> solution.lines_view().contains_key(
                        (#[trigger] self.lines@[j]).id,
                    ),
            decreases ln - k,
        {
            let line = &self.lines[k];
            let start_coords = match solution.get_point_coordinates(line.start) {
                Ok(v) => v,
                Err(e) => {
                    return Err(e);
                },
            };
            let end_coords = match solution.get_point_coordinates(line.end) {
                Ok(v) => v,
                Err(e) => {
                    return Err(e);
                },
            };
            match solution.extract_line_parameters(line.id, start_coords, end_coords) {
                Ok(_) => (),
                Err(e) => {
                    return Err(e);
                },
            }
            k = k + 1;
        }
        proof {
            assert forall|id: PointId|
                old(self).point_vars_map().contains_key(id) implies solution.points_view()
                .contains_key(id) by {
                assert(self.points@[id.0.index as int].id == id);
            }
            assert forall|id: LineId|
                old(self).lines_map().contains_key(id) implies solution.lines_view().contains_key(
                id,
            ) by {
                assert(self.lines@[id.0.index as int].id == id);
            }
        }
        Ok(solution)
    }
}

impl SketchQuery for Sketch {
    /// Points resolve by slot index under generation zero; each maps to its
    /// stored coordinate variable names.
    closed spec fn point_vars_map(&self) -> Map<PointId, (Seq<char>, Seq<char>)> {
        Map::new(
            |id: PointId| id.0.generation == 0 && id.0.index < self.points@.len(),
            |id: PointId|
                (self.points@[id.0.index as int].x@, self.points@[id.0.index as int].y@),
        )
    }

    /// Lines resolve by slot index under generation zero; each maps to its
    /// stored endpoint identifiers.
    closed spec fn lines_map(&self) -> Map<LineId, (PointId, PointId)> {
        Map::new(
            |id: LineId| id.0.generation == 0 && id.0.index < self.lines@.len(),
            |id: LineId|
                (self.lines@[id.0.index as int].start, self.lines@[id.0.index as int].end),
        )
    }

    /// Circles resolve by slot index under generation zero; each maps to its
    /// stored center identifier and radius variable name.
    closed spec fn circles_map(&self) -> Map<CircleId, (PointId, Seq<char>)> {
        Map::new(
            |id: CircleId| id.0.generation == 0 && id.0.index < self.circles@.len(),
            |id: CircleId|
                (
                    self.circles@[id.0.index as int].center,
                    self.circles@[id.0.index as int].radius@,
                ),
        )
    }

    fn point_variables(&self, point_id: PointId) -> (r: Result<(String, String), TextCadError>) {
        proof {
            use_type_invariant(&*self);
        }
        match self.get_point(point_id) {
            Some(p) => Ok((p.x.clone(), p.y.clone())),
            None => {
                let mut m = "Point PointId(".to_owned();
                point_id.0.push_raw(&mut m);
                m.append(") not found");
                Err(TextCadError::EntityError(m))
            },
        }
    }

    fn line_endpoints(&self, line_id: LineId) -> (r: Result<(PointId, PointId), TextCadError>) {
        proof {
            use_type_invariant(&*self);
        }
        match self.get_line(line_id) {
            Some(line) => Ok((line.start, line.end)),
            None => {
                let mut m = "Line LineId(".to_owned();
                line_id.0.push_raw(&mut m);
                m.append(") not found");
                Err(TextCadError::EntityError(m))
            },
        }
    }

    fn circle_center_and_radius(&self, circle_id: CircleId) -> (r: Result<
        (PointId, String),
        TextCadError,
    >) {
        proof {
            use_type_invariant(&*self);
        }
        match self.get_circle(circle_id) {
            Some(c) => Ok((c.center, c.radius.clone())),
            None => {
                let mut m = "Circle CircleId(".to_owned();
                circle_id.0.push_raw(&mut m);
                m.append(") not found");
                Err(TextCadError::EntityError(m))
            },
        }
    }

    /// A length unknown named on demand: the solver interns constants by
    /// name, so handing out the name is creating the variable.
    fn length_variable(&self, name: &str) -> (r: Result<String, TextCadError>) {
        let mut s = "length_".to_owned();
        s.append(name);
        proof {
            reveal_strlit("length_");
            lemma_nul_free_concat("length_"@, name@);
        }
        Ok(s)
    }

    /// An angle unknown named on demand, as `length_variable`.
    fn angle_variable(&self, name: &str) -> (r: Result<String, TextCadError>) {
        let mut s = "angle_".to_owned();
        s.append(name);
        proof {
            reveal_strlit("angle_");
            lemma_nul_free_concat("angle_"@, name@);
        }
        Ok(s)
    }
}

} // verus!

use crate::algebra::all_hold;

verus! {

/// The bridge from a whole solve to one constraint: any assignment that
/// satisfies everything an error-free application pass asserted satisfies, in
/// particular, the equations of each single applied constraint. Together with
/// the per-kind translation lemmas this carries a solve-level assumption down
/// to each geometric relationship.
pub proof fn lemma_trail_covers_constraint(
    cs: Seq<ConstraintKind>,
    points: Map<PointId, (Seq<char>, Seq<char>)>,
    lines: Map<LineId, (PointId, PointId)>,
    circles: Map<CircleId, (PointId, Seq<char>)>,
    env: crate::algebra::Env,
    j: int,
)
    requires
        0 <= j < cs.len(),
        all_emit(cs, points, lines, circles, cs.len() as int),
        all_hold(env, emitted_upto(cs, points, lines, circles, cs.len() as int)),
    ensures
        all_hold(env, kind_equations(cs[j], points, lines, circles)->Some_0),
{
    lemma_emitted_prefix_holds(cs, points, lines, circles, env, j, cs.len() as int);
}

/// Satisfaction of the first `n` constraints' emitted assertions restricts to
/// the `j`-th constraint's own assertions.
proof fn lemma_emitted_prefix_holds(
    cs: Seq<ConstraintKind>,
    points: Map<PointId, (Seq<char>, Seq<char>)>,
    lines: Map<LineId, (PointId, PointId)>,
    circles: Map<CircleId, (PointId, Seq<char>)>,
    env: crate::algebra::Env,
    j: int,
    n: int,
)
    requires
        0 <= j < n <= cs.len(),
        all_hold(env, emitted_upto(cs, points, lines, circles, n)),
    ensures
        all_hold(env, kind_equations(cs[j], points, lines, circles)->Some_0),
    decreases n,
{
    let prefix = emitted_upto(cs, points, lines, circles, n - 1);
    let last = kind_equations(cs[n - 1], points, lines, circles)->Some_0;
    assert forall|i: int| 0 <= i < prefix.len() implies crate::algebra::holds(
        env,
        #[trigger] prefix[i],
    ) by {
        assert((prefix + last)[i] == prefix[i]);
    }
    if j == n - 1 {
        assert forall|i: int| 0 <= i < last.len() implies crate::algebra::holds(
            env,
            #[trigger] last[i],
        ) by {
            assert((prefix + last)[prefix.len() + i] == last[i]);
        }
    } else {
        lemma_emitted_prefix_holds(cs, points, lines, circles, env, j, n - 1);
    }
}

} // verus!
