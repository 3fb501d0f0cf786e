//! The closed set of error codes a validation can report, and the stable
//! string identifier each one serializes to.

use vstd::prelude::*;

verus! {

/// A single validation finding. `InvalidFormat` covers both the length rule
/// and the character-class rule; `AlreadyExists` is the uniqueness rule.
#[derive(Clone, Copy, PartialEq, Eq, Structural, Debug)]
pub enum ValidationError {
    InvalidFormat,
    AlreadyExists,
}

/// The identifier reported for a formatting failure.
pub open spec fn invalid_format_code() -> Seq<char> {
    "invalid_format"@
}

/// The identifier reported when the serial number is already stored.
pub open spec fn already_exists_code() -> Seq<char> {
    "already_exists"@
}

impl ValidationError {
    /// The string identifier of this error code.
    pub open spec fn spec_value(self) -> Seq<char> {
        match self {
            ValidationError::InvalidFormat => invalid_format_code(),
            ValidationError::AlreadyExists => already_exists_code(),
        }
    }

    /// The stable string form of this error code, as it appears in a
    /// `ValidationResult`'s error list.
    pub fn value(&self) -> (r: String)
        ensures
            r@ == self.spec_value(),
    {
        match *self {
            ValidationError::InvalidFormat => "invalid_format".to_owned(),
            ValidationError::AlreadyExists => "already_exists".to_owned(),
        }
    }
}

} // verus!
