//! Why a build can fail.

use vstd::prelude::*;

verus! {

/// A fault of the builders that were handed to a build.
#[derive(Debug, Clone, PartialEq, Eq)]
pub enum BuildError {
    /// A procedure is defined or called by a name that is not registered.
    ProcedureNotFound(String),
    /// A stack holds no block.
    EmptyStack,
    /// A reporter of a variable or a list stands behind the first block of a
    /// stack, where nothing can be chained to it.
    ReporterInChain,
    /// An input has not the number of slots that its shadow kind asks for: two
    /// for an obscured shadow, one otherwise.
    IllShapedInput,
    /// A statement or expression has two inputs, or two fields, of the same name.
    RepeatedName,
}

/// The model of a [`BuildError`].
pub enum BuildErrorView {
    ProcedureNotFound(Seq<char>),
    EmptyStack,
    ReporterInChain,
    IllShapedInput,
    RepeatedName,
}

impl View for BuildError {
    type V = BuildErrorView;

    open spec fn view(&self) -> BuildErrorView {
        match self {
            BuildError::ProcedureNotFound(name) => BuildErrorView::ProcedureNotFound(name@),
            BuildError::EmptyStack => BuildErrorView::EmptyStack,
            BuildError::ReporterInChain => BuildErrorView::ReporterInChain,
            BuildError::IllShapedInput => BuildErrorView::IllShapedInput,
            BuildError::RepeatedName => BuildErrorView::RepeatedName,
        }
    }
}

/// The model of a fault that may be absent.
pub open spec fn fault_view(fault: Option<BuildError>) -> Option<BuildErrorView> {
    match fault {
        Some(e) => Some(e@),
        None => None,
    }
}

} // verus!
