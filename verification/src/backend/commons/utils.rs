//! Shorthands that wrap data or an outcome in the answer envelope.
use vstd::prelude::*;

use crate::backend::commons::{immortal_code, immortal_message, Immortal};
use crate::backend::models::ImmortalResponse;

verus! {

/// A successful answer carrying `data`.
pub fn success<T>(data: T) -> (r: ImmortalResponse<T>)
    ensures
        r.code == 200,
        r.message@ == "Request success"@,
        r.data == Some(data),
{
    ImmortalResponse::success(data)
}

/// A failed answer that reports `err`.
pub fn fail<T>(err: Immortal) -> (r: ImmortalResponse<T>)
    ensures
        r.code == immortal_code(err),
        r.message@ == immortal_message(err),
        r.data is None,
{
    ImmortalResponse::fail(err)
}

} // verus!
