//! Error taxonomy of the verification core.
//!
//! Environment construction failures abort a run before any property is
//! checked; everything else is contained and reported inline in the result
//! values, never as an error escaping a run.

use vstd::prelude::*;

verus! {

/// An error surfaced to the caller of a verification run.
#[derive(Debug, Clone)]
pub enum AispError {
    /// A validation step could not be carried out.
    Validation { message: String },
    /// The solver environment could not be constructed.
    Setup { message: String },
}

impl AispError {
    /// Builds a validation error carrying the given message.
    pub fn validation_error(message: String) -> (r: AispError)
        ensures
            r == (AispError::Validation { message }),
    {
        AispError::Validation { message }
    }

    /// Builds a setup error carrying the given message.
    pub fn setup_error(message: String) -> (r: AispError)
        ensures
            r == (AispError::Setup { message }),
    {
        AispError::Setup { message }
    }

    /// The human-readable message carried by this error.
    pub fn message(&self) -> (r: &String)
        ensures
            r@ == self.message_view(),
    {
        match self {
            AispError::Validation { message } => message,
            AispError::Setup { message } => message,
        }
    }

    /// The message of this error, as a sequence of characters.
    pub open spec fn message_view(&self) -> Seq<char> {
        match self {
            AispError::Validation { message } => message@,
            AispError::Setup { message } => message@,
        }
    }
}

/// Result type used by every fallible operation of the core.
pub type AispResult<T> = Result<T, AispError>;

} // verus!
