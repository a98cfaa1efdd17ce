//! The error taxonomy and the HTTP status envelope: how service outcomes
//! map to status codes and the fixed strings of the JSON envelope.

use vstd::prelude::*;

verus! {

/// Every way a service operation can fail.
#[derive(Clone, Copy, PartialEq, Eq, Structural, Debug)]
pub enum ApiError {
    /// No row matches the given id.
    NotFound,
    /// Any other storage-layer failure.
    Storage,
    /// A request body does not match the expected shape, including an
    /// unrecognized enum label.
    Deserialization,
}

/// The HTTP status code for a failed operation: 404 for a missing row,
/// 500 for everything else.
pub fn error_status(e: &ApiError) -> (r: u16)
    ensures
        r == (match e {
            ApiError::NotFound => 404u16,
            _ => 500u16,
        }),
{
    match e {
        ApiError::NotFound => 404,
        _ => 500,
    }
}

/// The `status` field of the envelope: `"success"` on success, `"fail"`
/// otherwise.
pub fn status_label(ok: bool) -> (r: &'static str)
    ensures
        ok ==> r@ == "success"@,
        !ok ==> r@ == "fail"@,
{
    if ok {
        "success"
    } else {
        "fail"
    }
}

/// The fixed message sent with every 404 envelope.
pub fn not_found_message() -> (r: &'static str)
    ensures
        r@ == "Collection not found"@,
{
    "Collection not found"
}

/// The fixed message of the health-check endpoint.
pub fn health_message() -> (r: &'static str)
    ensures
        r@ == "Build Simple CRUD API with Rust and MongoDB"@,
{
    "Build Simple CRUD API with Rust and MongoDB"
}

} // verus!
