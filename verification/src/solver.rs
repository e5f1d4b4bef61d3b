//! Abstract interfaces for constraint solvers.
//!
//! These traits describe what any solving backend offers, independently of
//! the bundled one; nothing in the core implements them, they are extension
//! points for alternative engines.

use crate::error::TextCadError;
use vstd::prelude::*;

verus! {

/// A solution extracted from a constraint solver, regardless of the
/// underlying implementation.
pub trait Solution {
    /// The representation of variable values in the solution.
    type Value;

    /// Extract the value of a variable by name.
    fn get_value(&self, variable_name: &str) -> Option<Self::Value>;

    /// Whether every variable has a value.
    fn is_complete(&self) -> bool;
}

/// Abstract interface for constraint solvers.
pub trait ConstraintSolver {
    /// The solution type this solver produces.
    type Solution: Solution;

    /// The representation of assertions for this solver.
    type Assertion;

    /// Add one assertion to the solver's state.
    fn add_assertion(&mut self, assertion: Self::Assertion) -> Result<(), TextCadError>;

    /// Attempt to solve the current system.
    fn solve(&mut self) -> Result<Self::Solution, TextCadError>;

    /// Check satisfiability without extracting a solution.
    fn check_satisfiable(&mut self) -> Result<bool, TextCadError>;

    /// Reset the solver, clearing all assertions.
    fn reset(&mut self);

    /// The number of active assertions.
    fn constraint_count(&self) -> usize;
}

/// Solvers that can push and pop assertion contexts, for efficient
/// exploration of variations.
pub trait IncrementalSolver: ConstraintSolver {
    /// Push a new assertion context onto the stack.
    fn push(&mut self);

    /// Pop the most recent assertion context from the stack.
    fn pop(&mut self) -> Result<(), TextCadError>;

    /// The current context depth.
    fn context_depth(&self) -> usize;
}

/// Solvers that can optimize objectives in addition to finding satisfying
/// solutions.
pub trait OptimizingSolver: ConstraintSolver {
    /// The representation of optimization objectives.
    type Objective;

    /// Add a minimization objective.
    fn minimize(&mut self, objective: Self::Objective) -> Result<(), TextCadError>;

    /// Add a maximization objective.
    fn maximize(&mut self, objective: Self::Objective) -> Result<(), TextCadError>;

    /// Clear all optimization objectives.
    fn clear_objectives(&mut self);
}

/// Metadata about a solver implementation.
#[derive(Debug, Clone)]
pub struct SolverInfo {
    /// Human-readable name of the solver.
    pub name: String,
    /// Version string of the solver.
    pub version: String,
    /// Whether the solver supports real arithmetic.
    pub supports_reals: bool,
    /// Whether the solver supports integer arithmetic.
    pub supports_integers: bool,
    /// Whether the solver supports incremental solving.
    pub supports_incremental: bool,
    /// Whether the solver supports optimization.
    pub supports_optimization: bool,
}

/// Querying a solver's capabilities.
pub trait SolverMetadata {
    /// Information about the solver implementation.
    fn solver_info(&self) -> SolverInfo;
}

} // verus!
