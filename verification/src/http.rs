//! Status-code selection for the five operations, following the service's
//! HTTP surface: 200 for successful reads and updates, 201 for a creation,
//! 204 for a deletion, 404 for not-found, 500 for a store failure.

use vstd::prelude::*;

use crate::models::Artist;
use crate::ApiError;

verus! {

/// A listing that reached the store is served with 200; a store failure
/// on this path is a 500, never a crash of the worker.
pub fn list_status(r: &Result<Vec<Artist>, ApiError>) -> (s: u16)
    ensures
        (r is Ok) <==> s == 200,
        (r is Err) <==> s == 500,
{
    match r {
        Ok(_) => 200,
        Err(_) => 500,
    }
}

/// A found row is served with 200, a missing one with 404.
pub fn retrieve_status(r: &Result<Artist, ApiError>) -> (s: u16)
    ensures
        (r is Ok) <==> s == 200,
        (r is Err) <==> s == 404,
{
    match r {
        Ok(_) => 200,
        Err(_) => 404,
    }
}

/// A created row is served with 201; an insert failure is a store error,
/// served with 500.
pub fn create_status(r: &Result<Artist, ApiError>) -> (s: u16)
    ensures
        (r is Ok) <==> s == 201,
        (r is Err) <==> s == 500,
{
    match r {
        Ok(_) => 201,
        Err(_) => 500,
    }
}

/// An updated row is served with 200, a missing one with 404.
pub fn update_status(r: &Result<Artist, ApiError>) -> (s: u16)
    ensures
        (r is Ok) <==> s == 200,
        (r is Err) <==> s == 404,
{
    match r {
        Ok(_) => 200,
        Err(_) => 404,
    }
}

/// A deletion is served with 204 and an empty body, a missing row with
/// 404.
pub fn destroy_status(r: &Result<(), ApiError>) -> (s: u16)
    ensures
        (r is Ok) <==> s == 204,
        (r is Err) <==> s == 404,
{
    match r {
        Ok(_) => 204,
        Err(_) => 404,
    }
}

} // verus!
