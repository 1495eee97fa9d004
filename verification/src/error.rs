//! The failures of the core.

use vstd::prelude::*;

verus! {

/// The failures that the core reports to its caller.
#[derive(Clone, Copy, Debug, PartialEq, Eq, Structural)]
pub enum CoreError {
    /// An answer named an option index outside the option list.
    InvalidOptionIndex,
    /// An answer arrived after the last question had been answered.
    ChallengeAlreadyCompleted,
    /// No challenge of the game path carries the requested id.
    ChallengeNotFound,
    /// A score was asked of a dataset without questions.
    EmptyQuestionSet,
    /// The bounds of the map span nothing along one axis.
    DegenerateLayout,
}

impl CoreError {
    /// The text shown for this error.
    pub fn message(&self) -> (text: &'static str)
        ensures
            text@ == match *self {
                CoreError::InvalidOptionIndex => "option index out of range"@,
                CoreError::ChallengeAlreadyCompleted => "challenge already completed"@,
                CoreError::ChallengeNotFound => "challenge not found"@,
                CoreError::EmptyQuestionSet => "challenge has no questions"@,
                CoreError::DegenerateLayout => "map bounds have zero span"@,
            },
    {
        match self {
            CoreError::InvalidOptionIndex => "option index out of range",
            CoreError::ChallengeAlreadyCompleted => "challenge already completed",
            CoreError::ChallengeNotFound => "challenge not found",
            CoreError::EmptyQuestionSet => "challenge has no questions",
            CoreError::DegenerateLayout => "map bounds have zero span",
        }
    }
}

} // verus!
