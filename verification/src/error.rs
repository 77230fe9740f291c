//! The ways in which reading a scale can fail.

use vstd::prelude::*;

verus! {

/// Why a read produced no measurement. Every failure is handed to the
/// caller of the read; none is retried here.
#[derive(Debug, PartialEq, Eq)]
pub enum HidScaleError {
    /// The scale cannot settle on a value, for instance while the load moves.
    UnreportableReading,
    /// The load exceeds what the scale is rated for.
    Overloaded,
    /// The report carries a status and unit code pair that is not understood.
    UnknownUnits,
    /// The report holds fewer bytes than a measurement needs.
    NotEnoughData,
    /// The transport failed; the text is its own description of the failure.
    CantReadDueTo(String),
}

impl Clone for HidScaleError {
    fn clone(&self) -> (copy: Self)
        ensures
            copy == *self,
    {
        match self {
            HidScaleError::UnreportableReading => HidScaleError::UnreportableReading,
            HidScaleError::Overloaded => HidScaleError::Overloaded,
            HidScaleError::UnknownUnits => HidScaleError::UnknownUnits,
            HidScaleError::NotEnoughData => HidScaleError::NotEnoughData,
            HidScaleError::CantReadDueTo(description) => HidScaleError::CantReadDueTo(
                description.clone(),
            ),
        }
    }
}

} // verus!
