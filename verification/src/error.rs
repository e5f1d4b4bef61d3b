//! The error taxonomy shared by sketch building, constraint application,
//! solving and solution extraction.

use vstd::prelude::*;
use vstd::string::StringExecFns;

verus! {

/// Every failure the library reports, as one flat enum.
///
/// `UnderConstrained` is reserved: nothing currently produces it.
/// `ExportError` and `InvalidParameter` are surface errors for collaborators
/// built around the library; the core itself does not produce them.
#[derive(Debug, Clone, PartialEq)]
pub enum TextCadError {
    /// The solver backend returned an indeterminate result or failed internally.
    SolverError(String),
    /// A constraint was built from malformed parameters.
    InvalidConstraint(String),
    /// A constraint referenced an identifier that is not present in the store.
    EntityError(String),
    /// The system of equations is proven unsatisfiable.
    OverConstrained,
    /// Reserved: the system admits infinitely many solutions.
    UnderConstrained,
    /// Extracting or converting a solved value failed.
    SolutionError(String),
    /// An exporter could not serialize a sketch.
    ExportError(String),
    /// An input parameter was rejected before reaching the solver.
    InvalidParameter(String),
}

/// Result alias for operations that can fail with a `TextCadError`.
pub type SolverResult<T> = Result<T, TextCadError>;

impl TextCadError {
    /// The human-readable message of this error, as a sequence of characters.
    pub open spec fn message_spec(&self) -> Seq<char> {
        match self {
            TextCadError::SolverError(m) => "Solver error: "@ + m@,
            TextCadError::InvalidConstraint(m) => "Invalid constraint: "@ + m@,
            TextCadError::EntityError(m) => "Entity error: "@ + m@,
            TextCadError::OverConstrained => "Sketch is over-constrained"@,
            TextCadError::UnderConstrained => "Sketch is under-constrained"@,
            TextCadError::SolutionError(m) => "Solution error: "@ + m@,
            TextCadError::ExportError(m) => "Export error: "@ + m@,
            TextCadError::InvalidParameter(m) => "Invalid parameter: "@ + m@,
        }
    }

    /// Render the error for diagnostics: a fixed prefix per variant, followed
    /// by the variant's detail text where it carries one.
    pub fn message(&self) -> (r: String)
        ensures
            r@ == self.message_spec(),
    {
        match self {
            TextCadError::SolverError(m) => {
                let mut s = "Solver error: ".to_owned();
                s.append(m.as_str());
                s
            },
            TextCadError::InvalidConstraint(m) => {
                let mut s = "Invalid constraint: ".to_owned();
                s.append(m.as_str());
                s
            },
            TextCadError::EntityError(m) => {
                let mut s = "Entity error: ".to_owned();
                s.append(m.as_str());
                s
            },
            TextCadError::OverConstrained => "Sketch is over-constrained".to_owned(),
            TextCadError::UnderConstrained => "Sketch is under-constrained".to_owned(),
            TextCadError::SolutionError(m) => {
                let mut s = "Solution error: ".to_owned();
                s.append(m.as_str());
                s
            },
            TextCadError::ExportError(m) => {
                let mut s = "Export error: ".to_owned();
                s.append(m.as_str());
                s
            },
            TextCadError::InvalidParameter(m) => {
                let mut s = "Invalid parameter: ".to_owned();
                s.append(m.as_str());
                s
            },
        }
    }
}

} // verus!
