//! The rules that request bodies are held to before a handler sees them.

use vstd::prelude::*;

verus! {

/// A field of a request body that a rule speaks of.
#[derive(Clone, Copy, Debug, PartialEq, Eq, Structural)]
pub enum Field {
    Title,
    Content,
    Username,
    Email,
    Password,
}

/// What `validator::validate_email` answers for a text.
pub uninterp spec fn email_well_formed(text: Seq<char>) -> bool;

/// Whether a text has at least `min` characters.
pub(crate) fn length_at_least(text: &str, min: u64) -> (enough: bool)
    ensures
        enough == (text@.len() >= min),
{
    text.unicode_len() as u64 >= min
}

/// Calls `validator::validate_email`, whose answer depends on the text alone.
#[verifier::external_body]
pub(crate) fn is_email(text: &str) -> (well_formed: bool)
    ensures
        well_formed == email_well_formed(text@),
{
    validator::validate_email(text)
}

/// The one-element list of `field` when `holds` is false, the empty list
/// otherwise.
pub open spec fn fault(holds: bool, field: Field) -> Seq<Field> {
    if holds {
        Seq::empty()
    } else {
        seq![field]
    }
}

/// `Ok` for an empty list of faults, the list itself otherwise.
pub(crate) fn verdict(faults: Vec<Field>) -> (checked: Result<(), Vec<Field>>)
    ensures
        match checked {
            Ok(_) => faults@.len() == 0,
            Err(listed) => faults@.len() > 0 && listed@ == faults@,
        },
{
    if faults.len() == 0 {
        Ok(())
    } else {
        Err(faults)
    }
}

} // verus!
