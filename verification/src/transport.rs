//! The transport's side of a read: what hidapi hands back, put into the
//! plain values that the drivers decide on.

use vstd::prelude::*;
use hidapi::HidError;

verus! {

/// hidapi's error type. Nothing is known of what a value holds.
#[verifier::external_type_specification]
#[verifier::external_body]
pub struct ExHidError(hidapi::HidError);

/// The `Debug` rendering of a `hidapi::HidError`, as `format!("{:?}", ..)`
/// gives it. The impl is derived on an enum, so the text begins with the
/// name of the variant: what is claimed, and not proved, is that it is
/// never empty.
#[verifier::external_body]
fn debug_text(error: &HidError) -> (text: String)
    ensures
        text@.len() > 0,
{
    format!("{:?}", error)
}

/// Puts a transport error into words and leaves a count as it is.
pub fn describe(outcome: Result<usize, HidError>) -> (described: Result<usize, String>)
    ensures
        match outcome {
            Ok(count) => described == Ok::<usize, String>(count),
            Err(_) => described matches Err(text) && text@.len() > 0,
        },
{
    match outcome {
        Ok(count) => Ok(count),
        Err(error) => Err(debug_text(&error)),
    }
}

} // verus!
