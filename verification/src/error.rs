//! Error type definitions.

use vstd::prelude::*;

verus! {

/// An error with no information: the codec reports failure of a whole-buffer
/// call as a null pointer or a zero, and nothing more.
#[derive(Debug, Clone, Copy, PartialEq, Eq, Structural, PartialOrd, Ord, Hash)]
pub struct WebPSimpleError;

impl WebPSimpleError {
    /// The text shown for this error.
    pub fn message(&self) -> (s: String)
        ensures
            s@ == "WebP format error"@,
    {
        "WebP format error".to_owned()
    }
}

} // verus!
