//! How an HTTP status reads in a message.

use vstd::prelude::*;
use crate::decimal::{decimal, decimal_string};

verus! {

/// The text that `reqwest::StatusCode` displays for the status with this
/// code: the code, and the canonical reason phrase that the HTTP registry
/// gives it.
pub uninterp spec fn status_display(code: u16) -> Seq<char>;

/// Renders a status as `reqwest::StatusCode` displays it.
///
/// `StatusCode::from_u16` accepts exactly the codes from 100 to 999; for
/// those the result is what `Display` writes, which depends on the code
/// alone. Any other code is no HTTP status and gives `None`.
#[verifier::external_body]
fn status_text(code: u16) -> (text: Option<String>)
    ensures
        text is Some <==> 100 <= code < 1000,
        text matches Some(t) ==> t@ == status_display(code),
{
    match reqwest::StatusCode::from_u16(code) {
        Ok(status) => Some(status.to_string()),
        Err(_) => None,
    }
}

/// How a status reads in a message: an HTTP status (100 to 999) as
/// `reqwest` displays it, any other number in plain decimal.
pub open spec fn spec_status_phrase(code: u16) -> Seq<char> {
    if 100 <= code < 1000 {
        status_display(code)
    } else {
        decimal(code as nat)
    }
}

/// Renders a status for a message.
pub fn status_phrase(code: u16) -> (phrase: String)
    ensures
        phrase@ == spec_status_phrase(code),
{
    match status_text(code) {
        Some(text) => text,
        None => decimal_string(code as u64),
    }
}

} // verus!
