//! Validation of text fields and the errors it reports.

use vstd::prelude::*;

verus! {

/// Largest number of bytes (in UTF-8) a bounded text field may hold.
pub const MAX_TEXT_BYTES: usize = 300;

/// Why a field value was refused.
#[derive(Clone, Copy, Debug, PartialEq, Eq, Structural)]
pub enum ValidationError {
    /// A text field that must not be empty was empty.
    Empty,
    /// A text field was longer than `MAX_TEXT_BYTES` bytes.
    TooLong,
    /// A quantity was zero.
    ZeroQuantity,
    /// A unit price was zero.
    ZeroUnitPrice,
}

/// Number of bytes `text` occupies in UTF-8.
pub open spec fn byte_len(text: Seq<char>) -> nat {
    vstd::utf8::encode_utf8(text).len()
}

/// The verdict on a bounded text field: it must be non-empty and at most
/// `MAX_TEXT_BYTES` bytes long. Emptiness is reported first.
pub open spec fn text_verdict(text: Seq<char>) -> Result<(), ValidationError> {
    if text.len() == 0 {
        Err(ValidationError::Empty)
    } else if byte_len(text) > MAX_TEXT_BYTES {
        Err(ValidationError::TooLong)
    } else {
        Ok(())
    }
}

/// Whether `text` is acceptable as a bounded text field.
pub open spec fn text_ok(text: Seq<char>) -> bool {
    text_verdict(text) is Ok
}

/// Checks a bounded text field.
pub fn check_text(text: &str) -> (r: Result<(), ValidationError>)
    ensures
        r == text_verdict(text@),
{
    if text.is_empty() {
        Err(ValidationError::Empty)
    } else if text.as_bytes().len() > MAX_TEXT_BYTES {
        Err(ValidationError::TooLong)
    } else {
        Ok(())
    }
}

} // verus!
