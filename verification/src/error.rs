//! The one way a conversion can fail.

use vstd::prelude::*;

verus! {

/// Why a label or an encoding was turned down.
#[derive(Debug, Clone, PartialEq, Eq)]
pub enum Error {
    /// The label is not a recognised one, or the encoding has no counterpart
    /// in the target format. Carries the rejected input: the label as it was
    /// given, or the encoding's debug rendering.
    UnsupportedMimeType(String),
}

impl Error {
    /// The rejected input that the error carries.
    pub open spec fn detail(self) -> Seq<char> {
        match self {
            Error::UnsupportedMimeType(s) => s@,
        }
    }

    /// The rejected input that the error carries.
    pub fn rejected(&self) -> (r: &str)
        ensures
            r@ == self.detail(),
    {
        match self {
            Error::UnsupportedMimeType(s) => s.as_str(),
        }
    }
}

} // verus!
