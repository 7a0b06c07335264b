//! Error type shared by the resolution and parsing steps.
//!
//! Most query failures degrade the affected fact instead of failing the
//! run, so the error type only needs to carry a message for diagnostics.

use vstd::prelude::*;

verus! {

/// Results returned by the fact-resolution and generation steps.
pub type SdResult<T> = Result<T, ShadowError>;

/// An error of the resolution or generation pipeline, carrying a
/// human-readable message.
#[derive(Debug, Clone)]
pub enum ShadowError {
    String(String),
}

impl ShadowError {
    /// Wrap a message in an error value.
    pub fn new(err: String) -> (r: Self)
        ensures
            r matches ShadowError::String(m) && m@ == err@,
    {
        ShadowError::String(err)
    }

    /// The message carried by this error.
    pub fn message(&self) -> (r: &String)
        ensures
            self matches ShadowError::String(m) && m@ == r@,
    {
        match self {
            ShadowError::String(m) => m,
        }
    }
}

} // verus!
