//! The length that a title or a name may have.

use vstd::prelude::*;
use vstd::string::StrSliceExecFns;

verus! {

/// The greatest number of characters that a title or a name may have.
pub const MAX_LENGTH: usize = 100;

/// Why a title or a name is refused.
#[derive(Debug, Clone, Copy, PartialEq, Eq)]
pub enum ValidationError {
    /// It has no character.
    Empty,
    /// It has more than [`MAX_LENGTH`] characters.
    TooLong,
}

/// Whether the text may be a title or a name: it has at least one character and
/// at most [`MAX_LENGTH`].
pub open spec fn length_check(text: Seq<char>) -> Result<(), ValidationError> {
    if text.len() == 0 {
        Err(ValidationError::Empty)
    } else if text.len() > MAX_LENGTH {
        Err(ValidationError::TooLong)
    } else {
        Ok(())
    }
}

/// Checks the number of characters of a title or a name.
pub fn check_length(text: &String) -> (result: Result<(), ValidationError>)
    ensures
        result == length_check(text@),
{
    let length = text.as_str().unicode_len();
    if length == 0 {
        Err(ValidationError::Empty)
    } else if length > MAX_LENGTH {
        Err(ValidationError::TooLong)
    } else {
        Ok(())
    }
}

} // verus!
