//! What can go wrong, and who hears of it.
//!
//! A refused injection and a failed display query go back to the caller. A
//! captured event that cannot be normalized is dropped on its own, and the
//! listener goes on.

use vstd::prelude::*;
use crate::event::EventKind;

verus! {

/// The operating system refused a synthetic event.
#[derive(Clone, Copy, Debug, PartialEq, Eq, Structural)]
pub struct InjectionError {
    /// The event that was refused.
    pub refused: EventKind,
}

/// No display could be measured.
#[derive(Clone, Copy, Debug, PartialEq, Eq, Structural)]
pub enum DisplayQueryError {
    NoDisplay,
}

/// Why one captured event could not be normalized.
#[derive(Clone, Copy, Debug, PartialEq, Eq, Structural)]
pub enum ConversionError {
    /// The event was captured at a time before the epoch.
    TimeBeforeEpoch,
    /// The key is not in the vocabulary.
    UnknownKey,
    /// The button is not in the vocabulary.
    UnknownButton,
}

impl ConversionError {
    /// What is reported when the event is dropped. An identifier outside the
    /// vocabulary is dropped without a word.
    pub open spec fn diagnostic_of(self) -> Option<Seq<char>> {
        match self {
            ConversionError::TimeBeforeEpoch => Some("Failed to convert time"@),
            ConversionError::UnknownKey => None,
            ConversionError::UnknownButton => None,
        }
    }

    /// The text to report when an event is dropped for this reason, if any.
    pub fn diagnostic(self) -> (text: Option<&'static str>)
        ensures
            match text {
                Some(t) => self.diagnostic_of() == Some(t@),
                None => self.diagnostic_of() is None,
            },
    {
        match self {
            ConversionError::TimeBeforeEpoch => Some("Failed to convert time"),
            ConversionError::UnknownKey => None,
            ConversionError::UnknownButton => None,
        }
    }
}

} // verus!
