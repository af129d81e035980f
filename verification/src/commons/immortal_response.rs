//! The answer envelope of the account services.
use vstd::prelude::*;

verus! {

/// The envelope of an answer: message, status code and data.
pub struct ImmortalResponse<T> {
    pub message: String,
    pub code: i32,
    pub data: T,
}

} // verus!
