//! Errors of the grid engine.

use vstd::prelude::*;

verus! {

/// What can go wrong inside the grid engine.
#[derive(Clone, Copy, Debug, PartialEq, Eq, Structural)]
pub enum Error {
    /// The font measurement backend gave no metrics for the font.
    GetPangoMetrics,
    /// A line update named a row that the grid does not have.
    PutLineRowNotFound(u64),
    /// The drawing backend could not give a surface of the size asked for.
    /// Nothing in this crate fails with it: it is for whoever draws the
    /// grid, to report its failures next to the grid's own.
    FailedToCreateSurface,
}

impl Error {
    /// The error as a line of text for a log.
    pub fn message(&self) -> (s: &'static str)
        ensures
            *self is GetPangoMetrics ==> s@ == "Failed to get font metrics"@,
            *self is PutLineRowNotFound ==> s@ == "Row of a line update not found"@,
            *self is FailedToCreateSurface ==> s@ == "Failed to create surface"@,
    {
        match self {
            Error::GetPangoMetrics => "Failed to get font metrics",
            Error::PutLineRowNotFound(_) => "Row of a line update not found",
            Error::FailedToCreateSurface => "Failed to create surface",
        }
    }
}

} // verus!
