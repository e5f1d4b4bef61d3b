//! Solution extraction from solved models.
//!
//! A `Solution` owns the solver's model and converts its exact rational
//! values on demand, caching every extracted value: each cache entry is
//! written at most once, and later reads return the cached value unchanged.

use crate::backend::{model_eval_real, real_as_rational, real_const};
use crate::entities::point::PointId;
use crate::entity::{CircleId, LineId};
use crate::error::TextCadError;
use crate::names::nul_free;
use crate::rational::{fits_i64, ratio_add, ratio_mul, ratio_sub, Ratio, Rational};
use vstd::prelude::*;
use vstd::string::StringExecFns;

verus! {

/// No key occurs twice in an association list.
pub open spec fn keys_unique<K, V>(s: Seq<(K, V)>) -> bool {
    forall|i: int, j: int| 0 <= i < j < s.len() ==> (#[trigger] s[i]).0 != (#[trigger] s[j]).0
}

/// The map an association list denotes.
pub open spec fn assoc_map<K, V>(s: Seq<(K, V)>) -> Map<K, V>
    decreases s.len(),
{
    if s.len() == 0 {
        Map::empty()
    } else {
        assoc_map(s.drop_last()).insert(s.last().0, s.last().1)
    }
}

/// An entry of an association list is in its map; under unique keys it is the
/// entry's own value.
proof fn lemma_assoc_found<K, V>(s: Seq<(K, V)>, i: int)
    requires
        keys_unique(s),
        0 <= i < s.len(),
    ensures
        assoc_map(s).contains_key(s[i].0),
        assoc_map(s)[s[i].0] == s[i].1,
    decreases s.len(),
{
    if i < s.len() - 1 {
        assert(s.drop_last()[i] == s[i]);
        lemma_assoc_found(s.drop_last(), i);
        assert(s[i].0 != s.last().0);
    }
}

/// A key under which no entry stands is not in the map.
proof fn lemma_assoc_absent<K, V>(s: Seq<(K, V)>, k: K)
    requires
        forall|i: int| 0 <= i < s.len() ==> (#[trigger] s[i]).0 != k,
    ensures
        !assoc_map(s).contains_key(k),
    decreases s.len(),
{
    if s.len() > 0 {
        assert(forall|i: int|
            0 <= i < s.drop_last().len() ==> (#[trigger] s.drop_last()[i]) == s[i]);
        lemma_assoc_absent(s.drop_last(), k);
    }
}

/// The map a name-keyed association list denotes, keyed by the names' views.
pub open spec fn named_assoc_map<V>(s: Seq<(String, V)>) -> Map<Seq<char>, V>
    decreases s.len(),
{
    if s.len() == 0 {
        Map::empty()
    } else {
        named_assoc_map(s.drop_last()).insert(s.last().0@, s.last().1)
    }
}

/// No name view occurs twice in a name-keyed association list.
pub open spec fn names_unique<V>(s: Seq<(String, V)>) -> bool {
    forall|i: int, j: int| 0 <= i < j < s.len() ==> (#[trigger] s[i]).0@ != (#[trigger] s[j]).0@
}

proof fn lemma_named_assoc_found<V>(s: Seq<(String, V)>, i: int)
    requires
        names_unique(s),
        0 <= i < s.len(),
    ensures
        named_assoc_map(s).contains_key(s[i].0@),
        named_assoc_map(s)[s[i].0@] == s[i].1,
    decreases s.len(),
{
    if i < s.len() - 1 {
        assert(s.drop_last()[i] == s[i]);
        lemma_named_assoc_found(s.drop_last(), i);
        assert(s[i].0@ != s.last().0@);
    }
}

proof fn lemma_named_assoc_absent<V>(s: Seq<(String, V)>, k: Seq<char>)
    requires
        forall|i: int| 0 <= i < s.len() ==> (#[trigger] s[i]).0@ != k,
    ensures
        !named_assoc_map(s).contains_key(k),
    decreases s.len(),
{
    if s.len() > 0 {
        assert(forall|i: int|
            0 <= i < s.drop_last().len() ==> (#[trigger] s.drop_last()[i]) == s[i]);
        lemma_named_assoc_absent(s.drop_last(), k);
    }
}

/// A key in the denoted map stands at some entry of the list.
proof fn lemma_assoc_entry<K, V>(s: Seq<(K, V)>, k: K) -> (i: int)
    requires
        keys_unique(s),
        assoc_map(s).contains_key(k),
    ensures
        0 <= i < s.len(),
        s[i].0 == k,
        s[i].1 == assoc_map(s)[k],
    decreases s.len(),
{
    if s.last().0 == k {
        s.len() - 1
    } else {
        let i = lemma_assoc_entry(s.drop_last(), k);
        assert(s.drop_last()[i] == s[i]);
        i
    }
}

/// A name in the denoted map stands at some entry of the list.
proof fn lemma_named_assoc_entry<V>(s: Seq<(String, V)>, k: Seq<char>) -> (i: int)
    requires
        names_unique(s),
        named_assoc_map(s).contains_key(k),
    ensures
        0 <= i < s.len(),
        s[i].0@ == k,
        s[i].1 == named_assoc_map(s)[k],
    decreases s.len(),
{
    if s.last().0@ == k {
        s.len() - 1
    } else {
        let i = lemma_named_assoc_entry(s.drop_last(), k);
        assert(s.drop_last()[i] == s[i]);
        i
    }
}

/// Parameters extracted for a line entity: the endpoint coordinates and the
/// exact squared Euclidean distance between them. The square root (and the
/// angle) are irrational in general and are left to floating-point callers.
#[derive(Debug, Clone, Copy, PartialEq)]
pub struct LineParameters {
    /// Start point coordinates, in the canonical unit.
    pub start: (Rational, Rational),
    /// End point coordinates, in the canonical unit.
    pub end: (Rational, Rational),
    /// Exact squared length.
    pub length_sq: Rational,
}

/// Parameters extracted for a circle entity: the center coordinates and the
/// exact radius. Circumference and area carry a factor of pi and are left to
/// floating-point callers.
#[derive(Debug, Clone, Copy, PartialEq)]
pub struct CircleParameters {
    /// Center point coordinates, in the canonical unit.
    pub center: (Rational, Rational),
    /// Radius, in the canonical unit.
    pub radius: Rational,
}

/// The heuristic precision diagnostic of the extractor: a very small
/// denominator combined with a very large numerator is flagged, without
/// blocking extraction.
pub fn precision_loss_risk(num: i64, den: i64) -> (r: bool)
    ensures
        r == ((-1000 < den < 1000) && (num > 1_000_000_000 || num < -1_000_000_000)),
{
    (den > -1000 && den < 1000) && (num > 1_000_000_000 || num < -1_000_000_000)
}

/// The extracted, cached view of one solved model.
#[derive(Debug)]
pub struct Solution {
    /// The model holding the satisfying assignment.
    model: z3::Model,
    /// Cached point coordinates.
    point_coords: Vec<(PointId, (Rational, Rational))>,
    /// Cached line parameters.
    line_params: Vec<(LineId, LineParameters)>,
    /// Cached circle parameters.
    circle_params: Vec<(CircleId, CircleParameters)>,
    /// Cached named parameters.
    parameter_vars: Vec<(String, Rational)>,
    /// Contexts for which the precision heuristic fired.
    precision_warnings: Vec<String>,
}

impl Solution {
    /// Caches hold each key once and only denoting values.
    #[verifier::type_invariant]
    spec fn inv(&self) -> bool {
        &&& keys_unique(self.point_coords@)
        &&& keys_unique(self.line_params@)
        &&& keys_unique(self.circle_params@)
        &&& names_unique(self.parameter_vars@)
        &&& forall|i: int|
            0 <= i < self.point_coords@.len() ==> (#[trigger] self.point_coords@[i]).1.0.wf() && (
            self.point_coords@[i]).1.1.wf()
        &&& forall|i: int|
            0 <= i < self.line_params@.len() ==> {
                let p = (#[trigger] self.line_params@[i]).1;
                p.start.0.wf() && p.start.1.wf() && p.end.0.wf() && p.end.1.wf()
                    && p.length_sq.wf()
            }
        &&& forall|i: int|
            0 <= i < self.circle_params@.len() ==> {
                let p = (#[trigger] self.circle_params@[i]).1;
                p.center.0.wf() && p.center.1.wf() && p.radius.wf()
            }
        &&& forall|i: int|
            0 <= i < self.parameter_vars@.len() ==> (#[trigger] self.parameter_vars@[i]).1.wf()
    }

    /// The extracted point coordinates, by identifier.
    pub closed spec fn points_view(&self) -> Map<PointId, (Rational, Rational)> {
        assoc_map(self.point_coords@)
    }

    /// The extracted line parameters, by identifier.
    pub closed spec fn lines_view(&self) -> Map<LineId, LineParameters> {
        assoc_map(self.line_params@)
    }

    /// The extracted circle parameters, by identifier.
    pub closed spec fn circles_view(&self) -> Map<CircleId, CircleParameters> {
        assoc_map(self.circle_params@)
    }

    /// The extracted named parameters, by variable name.
    pub closed spec fn params_view(&self) -> Map<Seq<char>, Rational> {
        named_assoc_map(self.parameter_vars@)
    }

    /// All four caches at once; unchanged by reads.
    pub open spec fn views(&self) -> (
        Map<PointId, (Rational, Rational)>,
        Map<LineId, LineParameters>,
        Map<CircleId, CircleParameters>,
        Map<Seq<char>, Rational>,
    ) {
        (self.points_view(), self.lines_view(), self.circles_view(), self.params_view())
    }

    /// Create a solution over a model; all caches start empty.
    pub fn new(model: z3::Model) -> (r: Solution)
        ensures
            r.points_view() == Map::<PointId, (Rational, Rational)>::empty(),
            r.lines_view() == Map::<LineId, LineParameters>::empty(),
            r.circles_view() == Map::<CircleId, CircleParameters>::empty(),
            r.params_view() == Map::<Seq<char>, Rational>::empty(),
    {
        Solution {
            model,
            point_coords: Vec::new(),
            line_params: Vec::new(),
            circle_params: Vec::new(),
            parameter_vars: Vec::new(),
            precision_warnings: Vec::new(),
        }
    }

    /// The underlying model.
    pub fn model(&self) -> &z3::Model {
        &self.model
    }

    /// The contexts for which the precision heuristic fired so far.
    pub fn precision_warnings(&self) -> &Vec<String> {
        &self.precision_warnings
    }

    /// Evaluate one named variable in the model and normalize it to an exact
    /// rational. Fails when the model cannot evaluate the name, when the
    /// value is not a small rational numeral, or when it does not denote a
    /// number; flags the precision heuristic as a warning, never as an error.
    fn eval_rational(&mut self, name: &str, context: &str) -> (r: Result<Rational, TextCadError>)
        requires
            nul_free(name@),
        ensures
            final(self).point_coords == old(self).point_coords,
            final(self).line_params == old(self).line_params,
            final(self).circle_params == old(self).circle_params,
            final(self).parameter_vars == old(self).parameter_vars,
            match r {
                Ok(q) => q.wf(),
                Err(e) => e is SolutionError,
            },
    {
        proof {
            use_type_invariant(&*self);
        }
        let term = real_const(name);
        let value = match model_eval_real(&self.model, &term) {
            Some(v) => v,
            None => {
                let mut m = "Failed to evaluate ".to_owned();
                m.append(context);
                return Err(TextCadError::SolutionError(m));
            },
        };
        let (num, den) = match real_as_rational(&value) {
            Some(p) => p,
            None => {
                let mut m = "Failed to extract rational value for ".to_owned();
                m.append(context);
                m.append(": not a rational numeral");
                return Err(TextCadError::SolutionError(m));
            },
        };
        let q = match Rational::from_parts(num, den) {
            Some(q) => q,
            None => {
                if den == 0 {
                    let mut m = "Division by zero in ".to_owned();
                    m.append(context);
                    m.append(" rational");
                    return Err(TextCadError::SolutionError(m));
                } else {
                    let mut m = "Numeric range exceeded in ".to_owned();
                    m.append(context);
                    m.append(" rational");
                    return Err(TextCadError::SolutionError(m));
                }
            },
        };
        if precision_loss_risk(num, den) {
            let mut warned: Vec<String> = Vec::new();
            std::mem::swap(&mut self.precision_warnings, &mut warned);
            warned.push(context.to_owned());
            std::mem::swap(&mut self.precision_warnings, &mut warned);
        }
        Ok(q)
    }
}

/// The stepwise exact squared-distance chain of a line's endpoints.
pub open spec fn line_sq_value(start: (Rational, Rational), end: (Rational, Rational)) -> Ratio {
    let dx = ratio_sub(end.0.ratio(), start.0.ratio());
    let dy = ratio_sub(end.1.ratio(), start.1.ratio());
    ratio_add(ratio_mul(dx, dx), ratio_mul(dy, dy))
}

/// Every intermediate of the squared-distance chain fits an `i64` fraction.
pub open spec fn line_sq_fits(start: (Rational, Rational), end: (Rational, Rational)) -> bool {
    let dx = ratio_sub(end.0.ratio(), start.0.ratio());
    let dy = ratio_sub(end.1.ratio(), start.1.ratio());
    let dx2 = ratio_mul(dx, dx);
    let dy2 = ratio_mul(dy, dy);
    let sum = ratio_add(dx2, dy2);
    &&& fits_i64(dx.n) && fits_i64(dx.d)
    &&& fits_i64(dy.n) && fits_i64(dy.d)
    &&& fits_i64(dx2.n) && fits_i64(dx2.d)
    &&& fits_i64(dy2.n) && fits_i64(dy2.d)
    &&& fits_i64(sum.n) && fits_i64(sum.d)
}

/// Look a point up in a coordinate cache.
fn lookup_point(cache: &Vec<(PointId, (Rational, Rational))>, id: PointId) -> (r: Option<
    (Rational, Rational),
>)
    requires
        keys_unique(cache@),
    ensures
        match r {
            Some(v) => assoc_map(cache@).contains_key(id) && v == assoc_map(cache@)[id],
            None => !assoc_map(cache@).contains_key(id),
        },
{
    let n = cache.len();
    let mut i: usize = 0;
    while i < n
        invariant
            i <= n,
            n == cache@.len(),
            keys_unique(cache@),
            forall|j: int| 0 <= j < i ==> (#[trigger] cache@[j]).0 != id,
        decreases n - i,
    {
        if cache[i].0 == id {
            proof {
                lemma_assoc_found(cache@, i as int);
            }
            return Some(cache[i].1);
        }
        i = i + 1;
    }
    proof {
        lemma_assoc_absent(cache@, id);
    }
    None
}

/// Look a line up in a parameter cache.
fn lookup_line(cache: &Vec<(LineId, LineParameters)>, id: LineId) -> (r: Option<LineParameters>)
    requires
        keys_unique(cache@),
    ensures
        match r {
            Some(v) => assoc_map(cache@).contains_key(id) && v == assoc_map(cache@)[id],
            None => !assoc_map(cache@).contains_key(id),
        },
{
    let n = cache.len();
    let mut i: usize = 0;
    while i < n
        invariant
            i <= n,
            n == cache@.len(),
            keys_unique(cache@),
            forall|j: int| 0 <= j < i ==> (#[trigger] cache@[j]).0 != id,
        decreases n - i,
    {
        if cache[i].0 == id {
            proof {
                lemma_assoc_found(cache@, i as int);
            }
            return Some(cache[i].1);
        }
        i = i + 1;
    }
    proof {
        lemma_assoc_absent(cache@, id);
    }
    None
}

/// Look a circle up in a parameter cache.
fn lookup_circle(cache: &Vec<(CircleId, CircleParameters)>, id: CircleId) -> (r: Option<
    CircleParameters,
>)
    requires
        keys_unique(cache@),
    ensures
        match r {
            Some(v) => assoc_map(cache@).contains_key(id) && v == assoc_map(cache@)[id],
            None => !assoc_map(cache@).contains_key(id),
        },
{
    let n = cache.len();
    let mut i: usize = 0;
    while i < n
        invariant
            i <= n,
            n == cache@.len(),
            keys_unique(cache@),
            forall|j: int| 0 <= j < i ==> (#[trigger] cache@[j]).0 != id,
        decreases n - i,
    {
        if cache[i].0 == id {
            proof {
                lemma_assoc_found(cache@, i as int);
            }
            return Some(cache[i].1);
        }
        i = i + 1;
    }
    proof {
        lemma_assoc_absent(cache@, id);
    }
    None
}

/// Look a named parameter up in its cache.
fn lookup_named(cache: &Vec<(String, Rational)>, name: &String) -> (r: Option<Rational>)
    requires
        names_unique(cache@),
    ensures
        match r {
            Some(v) => named_assoc_map(cache@).contains_key(name@) && v == named_assoc_map(
                cache@,
            )[name@],
            None => !named_assoc_map(cache@).contains_key(name@),
        },
{
    let n = cache.len();
    let mut i: usize = 0;
    while i < n
        invariant
            i <= n,
            n == cache@.len(),
            names_unique(cache@),
            forall|j: int| 0 <= j < i ==> (#[trigger] cache@[j]).0@ != name@,
        decreases n - i,
    {
        if cache[i].0 == *name {
            proof {
                lemma_named_assoc_found(cache@, i as int);
            }
            return Some(cache[i].1);
        }
        i = i + 1;
    }
    proof {
        lemma_named_assoc_absent(cache@, name@);
    }
    None
}

/// Appending a fresh key extends the denoted map by exactly that entry.
proof fn lemma_assoc_push<K, V>(s: Seq<(K, V)>, k: K, v: V)
    requires
        keys_unique(s),
        !assoc_map(s).contains_key(k),
    ensures
        keys_unique(s.push((k, v))),
        assoc_map(s.push((k, v))) == assoc_map(s).insert(k, v),
{
    assert forall|i: int| 0 <= i < s.len() implies (#[trigger] s[i]).0 != k by {
        if s[i].0 == k {
            lemma_assoc_found(s, i);
        }
    }
    assert(s.push((k, v)).drop_last() =~= s);
}

/// Appending a fresh name extends the denoted map by exactly that entry.
proof fn lemma_named_assoc_push<V>(s: Seq<(String, V)>, k: String, v: V)
    requires
        names_unique(s),
        !named_assoc_map(s).contains_key(k@),
    ensures
        names_unique(s.push((k, v))),
        named_assoc_map(s.push((k, v))) == named_assoc_map(s).insert(k@, v),
{
    assert forall|i: int| 0 <= i < s.len() implies (#[trigger] s[i]).0@ != k@ by {
        if s[i].0@ == k@ {
            lemma_named_assoc_found(s, i);
        }
    }
    assert(s.push((k, v)).drop_last() =~= s);
}

impl Solution {
    /// Evaluate a point's two coordinate unknowns in the model, convert and
    /// cache the pair. Later calls for the same identifier return the cached
    /// pair without touching the model.
    pub fn extract_point_coordinates(&mut self, point_id: PointId, x_var: &str, y_var: &str) -> (r:
        Result<(Rational, Rational), TextCadError>)
        requires
            nul_free(x_var@),
            nul_free(y_var@),
        ensures
            old(self).points_view().contains_key(point_id) ==> final(self).views() == old(self).views() && r == Ok::<_, TextCadError>(old(self).points_view()[point_id]),
            !old(self).points_view().contains_key(point_id) ==> match r {
                Ok(v) => final(self).points_view() == old(self).points_view().insert(point_id, v)
                    && final(self).lines_view() == old(self).lines_view() && final(
                    self).circles_view() == old(self).circles_view() && final(self).params_view()
                    == old(self).params_view(),
                Err(e) => e is SolutionError && final(self).views() == old(self).views(),
            },
            r matches Ok(v) ==> v.0.wf() && v.1.wf(),
    {
        proof {
            use_type_invariant(&*self);
        }
        match lookup_point(&self.point_coords, point_id) {
            Some(v) => {
                proof {
                    let i = lemma_assoc_entry(self.point_coords@, point_id);
                }
                Ok(v)
            },
            None => {
                let x = match self.eval_rational(x_var, "x coordinate") {
                    Ok(q) => q,
                    Err(e) => {
                        return Err(e);
                    },
                };
                let y = match self.eval_rational(y_var, "y coordinate") {
                    Ok(q) => q,
                    Err(e) => {
                        return Err(e);
                    },
                };
                proof {
                    use_type_invariant(&*self);
                    lemma_assoc_push(self.point_coords@, point_id, (x, y));
                }
                let mut cache: Vec<(PointId, (Rational, Rational))> = Vec::new();
                std::mem::swap(&mut self.point_coords, &mut cache);
                cache.push((point_id, (x, y)));
                std::mem::swap(&mut self.point_coords, &mut cache);
                Ok((x, y))
            },
        }
    }

    /// The cached coordinates of a point; an error when they have not been
    /// extracted.
    pub fn get_point_coordinates(&self, point_id: PointId) -> (r: Result<
        (Rational, Rational),
        TextCadError,
    >)
        ensures
            match r {
                Ok(v) => self.points_view().contains_key(point_id) && v
                    == self.points_view()[point_id] && v.0.wf() && v.1.wf(),
                Err(e) => !self.points_view().contains_key(point_id) && e is SolutionError,
            },
    {
        proof {
            use_type_invariant(&*self);
        }
        match lookup_point(&self.point_coords, point_id) {
            Some(v) => {
                proof {
                    let i = lemma_assoc_entry(self.point_coords@, point_id);
                }
                Ok(v)
            },
            None => {
                let mut m = "Point PointId(".to_owned();
                point_id.0.push_raw(&mut m);
                m.append(") coordinates not extracted");
                Err(TextCadError::SolutionError(m))
            },
        }
    }

    /// All extracted point coordinates, as the cache's entries.
    pub fn all_point_coordinates(&self) -> (r: &Vec<(PointId, (Rational, Rational))>)
        ensures
            keys_unique(r@),
            assoc_map(r@) == self.points_view(),
    {
        proof {
            use_type_invariant(&*self);
        }
        &self.point_coords
    }

    /// Evaluate one named unknown in the model, convert and cache it. Later
    /// calls for the same name return the cached value without touching the
    /// model.
    pub fn extract_parameter(&mut self, var_name: &str) -> (r: Result<Rational, TextCadError>)
        requires
            nul_free(var_name@),
        ensures
            old(self).params_view().contains_key(var_name@) ==> final(self).views() == old(self).views() && r == Ok::<_, TextCadError>(old(self).params_view()[var_name@]),
            !old(self).params_view().contains_key(var_name@) ==> match r {
                Ok(v) => final(self).params_view() == old(self).params_view().insert(var_name@, v)
                    && final(self).points_view() == old(self).points_view() && final(
                    self).lines_view() == old(self).lines_view() && final(self).circles_view()
                    == old(self).circles_view(),
                Err(e) => e is SolutionError && final(self).views() == old(self).views(),
            },
            r matches Ok(v) ==> v.wf(),
    {
        proof {
            use_type_invariant(&*self);
        }
        let owned_name = var_name.to_owned();
        match lookup_named(&self.parameter_vars, &owned_name) {
            Some(v) => {
                proof {
                    let i = lemma_named_assoc_entry(self.parameter_vars@, var_name@);
                }
                Ok(v)
            },
            None => {
                let v = match self.eval_rational(var_name, var_name) {
                    Ok(q) => q,
                    Err(e) => {
                        return Err(e);
                    },
                };
                proof {
                    use_type_invariant(&*self);
                    lemma_named_assoc_push(self.parameter_vars@, owned_name, v);
                }
                let mut cache: Vec<(String, Rational)> = Vec::new();
                std::mem::swap(&mut self.parameter_vars, &mut cache);
                cache.push((owned_name, v));
                std::mem::swap(&mut self.parameter_vars, &mut cache);
                Ok(v)
            },
        }
    }

    /// The cached value of a named parameter; an error when it has not been
    /// extracted.
    pub fn get_parameter(&self, var_name: &str) -> (r: Result<Rational, TextCadError>)
        ensures
            match r {
                Ok(v) => self.params_view().contains_key(var_name@) && v
                    == self.params_view()[var_name@] && v.wf(),
                Err(e) => !self.params_view().contains_key(var_name@) && e is SolutionError,
            },
    {
        proof {
            use_type_invariant(&*self);
        }
        match lookup_named(&self.parameter_vars, &var_name.to_owned()) {
            Some(v) => {
                proof {
                    let i = lemma_named_assoc_entry(self.parameter_vars@, var_name@);
                }
                Ok(v)
            },
            None => {
                let mut m = "Parameter '".to_owned();
                m.append(var_name);
                m.append("' not extracted");
                Err(TextCadError::SolutionError(m))
            },
        }
    }

    /// All extracted named parameters, as the cache's entries.
    pub fn all_parameters(&self) -> (r: &Vec<(String, Rational)>)
        ensures
            names_unique(r@),
            named_assoc_map(r@) == self.params_view(),
    {
        proof {
            use_type_invariant(&*self);
        }
        &self.parameter_vars
    }

    /// Compute and cache a line's parameters from its endpoint coordinates:
    /// the exact squared Euclidean distance between them. Later calls for the
    /// same identifier return the cached parameters unchanged.
    pub fn extract_line_parameters(
        &mut self,
        line_id: LineId,
        start_coords: (Rational, Rational),
        end_coords: (Rational, Rational),
    ) -> (r: Result<LineParameters, TextCadError>)
        requires
            start_coords.0.wf(),
            start_coords.1.wf(),
            end_coords.0.wf(),
            end_coords.1.wf(),
        ensures
            old(self).lines_view().contains_key(line_id) ==> final(self).views() == old(self).views() && r == Ok::<_, TextCadError>(old(self).lines_view()[line_id]),
            r matches Ok(p) ==> p.start.0.wf() && p.start.1.wf() && p.end.0.wf() && p.end.1.wf()
                && p.length_sq.wf(),
            !old(self).lines_view().contains_key(line_id) ==> match r {
                Ok(p) => p.start == start_coords && p.end == end_coords && p.length_sq.ratio()
                    == line_sq_value(start_coords, end_coords) && line_sq_fits(
                    start_coords,
                    end_coords,
                ) && final(self).lines_view() == old(self).lines_view().insert(line_id, p) && final(self).points_view() == old(self).points_view() && final(self).circles_view() == old(self).circles_view() && final(self).params_view() == old(self).params_view(),
                Err(e) => e is SolutionError && !line_sq_fits(start_coords, end_coords) && final(self).views() == old(self).views(),
            },
    {
        proof {
            use_type_invariant(&*self);
        }
        match lookup_line(&self.line_params, line_id) {
            Some(p) => {
                proof {
                    let i = lemma_assoc_entry(self.line_params@, line_id);
                }
                Ok(p)
            },
            None => {
                let overflow_message = "Numeric range exceeded computing line length";
                let dx = match end_coords.0.checked_sub(start_coords.0) {
                    Some(q) => q,
                    None => {
                        return Err(TextCadError::SolutionError(overflow_message.to_owned()));
                    },
                };
                let dy = match end_coords.1.checked_sub(start_coords.1) {
                    Some(q) => q,
                    None => {
                        return Err(TextCadError::SolutionError(overflow_message.to_owned()));
                    },
                };
                let dx2 = match dx.checked_mul(dx) {
                    Some(q) => q,
                    None => {
                        return Err(TextCadError::SolutionError(overflow_message.to_owned()));
                    },
                };
                let dy2 = match dy.checked_mul(dy) {
                    Some(q) => q,
                    None => {
                        return Err(TextCadError::SolutionError(overflow_message.to_owned()));
                    },
                };
                let length_sq = match dx2.checked_add(dy2) {
                    Some(q) => q,
                    None => {
                        return Err(TextCadError::SolutionError(overflow_message.to_owned()));
                    },
                };
                let p = LineParameters { start: start_coords, end: end_coords, length_sq };
                proof {
                    use_type_invariant(&*self);
                    lemma_assoc_push(self.line_params@, line_id, p);
                }
                let mut cache: Vec<(LineId, LineParameters)> = Vec::new();
                std::mem::swap(&mut self.line_params, &mut cache);
                cache.push((line_id, p));
                std::mem::swap(&mut self.line_params, &mut cache);
                Ok(p)
            },
        }
    }

    /// The cached parameters of a line; an error when they have not been
    /// extracted.
    pub fn get_line_parameters(&self, line_id: LineId) -> (r: Result<
        LineParameters,
        TextCadError,
    >)
        ensures
            match r {
                Ok(p) => self.lines_view().contains_key(line_id) && p
                    == self.lines_view()[line_id] && p.start.0.wf() && p.start.1.wf()
                    && p.end.0.wf() && p.end.1.wf() && p.length_sq.wf(),
                Err(e) => !self.lines_view().contains_key(line_id) && e is SolutionError,
            },
    {
        proof {
            use_type_invariant(&*self);
        }
        match lookup_line(&self.line_params, line_id) {
            Some(p) => {
                proof {
                    let i = lemma_assoc_entry(self.line_params@, line_id);
                }
                Ok(p)
            },
            None => {
                let mut m = "Line LineId(".to_owned();
                line_id.0.push_raw(&mut m);
                m.append(") parameters not extracted");
                Err(TextCadError::SolutionError(m))
            },
        }
    }

    /// Evaluate a circle's radius unknown in the model, convert it, and cache
    /// it with the given center coordinates. Later calls for the same
    /// identifier return the cached parameters unchanged.
    pub fn extract_circle_parameters(
        &mut self,
        circle_id: CircleId,
        center_coords: (Rational, Rational),
        radius_var: &str,
    ) -> (r: Result<CircleParameters, TextCadError>)
        requires
            nul_free(radius_var@),
            center_coords.0.wf(),
            center_coords.1.wf(),
        ensures
            old(self).circles_view().contains_key(circle_id) ==> final(self).views() == old(self).views() && r == Ok::<_, TextCadError>(old(self).circles_view()[circle_id]),
            r matches Ok(p) ==> p.center.0.wf() && p.center.1.wf() && p.radius.wf(),
            !old(self).circles_view().contains_key(circle_id) ==> match r {
                Ok(p) => p.center == center_coords && p.radius.wf() && final(self).circles_view()
                    == old(self).circles_view().insert(circle_id, p) && final(self).points_view()
                    == old(self).points_view() && final(self).lines_view() == old(self).lines_view() && final(self).params_view() == old(self).params_view(),
                Err(e) => e is SolutionError && final(self).views() == old(self).views(),
            },
    {
        proof {
            use_type_invariant(&*self);
        }
        match lookup_circle(&self.circle_params, circle_id) {
            Some(p) => {
                proof {
                    let i = lemma_assoc_entry(self.circle_params@, circle_id);
                }
                Ok(p)
            },
            None => {
                let radius = match self.eval_rational(radius_var, "radius") {
                    Ok(q) => q,
                    Err(e) => {
                        return Err(e);
                    },
                };
                let p = CircleParameters { center: center_coords, radius };
                proof {
                    use_type_invariant(&*self);
                    lemma_assoc_push(self.circle_params@, circle_id, p);
                }
                let mut cache: Vec<(CircleId, CircleParameters)> = Vec::new();
                std::mem::swap(&mut self.circle_params, &mut cache);
                cache.push((circle_id, p));
                std::mem::swap(&mut self.circle_params, &mut cache);
                Ok(p)
            },
        }
    }

    /// The cached parameters of a circle; an error when they have not been
    /// extracted.
    pub fn get_circle_parameters(&self, circle_id: CircleId) -> (r: Result<
        CircleParameters,
        TextCadError,
    >)
        ensures
            match r {
                Ok(p) => self.circles_view().contains_key(circle_id) && p
                    == self.circles_view()[circle_id] && p.center.0.wf() && p.center.1.wf()
                    && p.radius.wf(),
                Err(e) => !self.circles_view().contains_key(circle_id) && e is SolutionError,
            },
    {
        proof {
            use_type_invariant(&*self);
        }
        match lookup_circle(&self.circle_params, circle_id) {
            Some(p) => {
                proof {
                    let i = lemma_assoc_entry(self.circle_params@, circle_id);
                }
                Ok(p)
            },
            None => {
                let mut m = "Circle CircleId(".to_owned();
                circle_id.0.push_raw(&mut m);
                m.append(") parameters not extracted");
                Err(TextCadError::SolutionError(m))
            },
        }
    }
}

} // verus!
