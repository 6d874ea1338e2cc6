//! The message that every refusal carries.

use vstd::prelude::*;

verus! {

/// A JSON body `{success, message}`.
#[derive(Clone, Debug, PartialEq, Eq)]
pub struct ResponseMessage {
    pub success: u8,
    pub message: String,
}

} // verus!
