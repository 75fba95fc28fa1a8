//! Background fetches report failures as plain text.
use vstd::prelude::*;

use crate::error::{message_spec, CliarrError};
use crate::text::starts_with;

verus! {

/// The message a failed fetch carries back to the screen: the error's own
/// message (for transport and URL errors, its fixed prefix followed by the
/// underlying library's text).
pub fn err_str(e: CliarrError) -> (r: String)
    ensures
        (match e {
            CliarrError::Http(_) | CliarrError::Url(_) => starts_with(r@, message_spec(e)),
            _ => r@ == message_spec(e),
        }),
{
    e.message()
}

} // verus!
