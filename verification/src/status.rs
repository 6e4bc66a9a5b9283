//! The status codes that each phase of the upload accepts.

use vstd::prelude::*;

verus! {

/// The code of `http::StatusCode::OK`, read through `StatusCode::as_u16`.
///
/// Trusted: the `http` crate defines `OK` as status 200.
#[verifier::external_body]
fn ok_code() -> (code: u16)
    ensures
        code == 200,
{
    http::StatusCode::OK.as_u16()
}

/// The code of `http::StatusCode::CREATED`, read through `StatusCode::as_u16`.
///
/// Trusted: the `http` crate defines `CREATED` as status 201.
#[verifier::external_body]
fn created_code() -> (code: u16)
    ensures
        code == 201,
{
    http::StatusCode::CREATED.as_u16()
}

/// The code of `http::StatusCode::ACCEPTED`, read through `StatusCode::as_u16`.
///
/// Trusted: the `http` crate defines `ACCEPTED` as status 202.
#[verifier::external_body]
fn accepted_code() -> (code: u16)
    ensures
        code == 202,
{
    http::StatusCode::ACCEPTED.as_u16()
}

/// The create phase accepts exactly 201 (created) and 200 (ok).
pub open spec fn create_accepts(status: u16) -> bool {
    status == 201 || status == 200
}

/// The update phase accepts exactly 200 (ok) and 202 (accepted).
pub open spec fn update_accepts(status: u16) -> bool {
    status == 200 || status == 202
}

/// Whether `status` is an accepted answer to the create request.
pub fn create_accepted(status: u16) -> (accepted: bool)
    ensures
        accepted == create_accepts(status),
{
    status == created_code() || status == ok_code()
}

/// Whether `status` is an accepted answer to the update request.
pub fn update_accepted(status: u16) -> (accepted: bool)
    ensures
        accepted == update_accepts(status),
{
    status == ok_code() || status == accepted_code()
}

} // verus!
