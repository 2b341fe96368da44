//! A minimal CRUD library over a single `artists` table.
//!
//! The heart of the library is [`store::ArtistTable`], a model of the
//! persisted table whose five operations (`list`, `retrieve`, `create`,
//! `update`, `destroy`) carry full functional contracts, together with the
//! per-request decision logic an HTTP front end needs: patch merging,
//! not-found detection on affected-row counts, and status-code selection.

pub mod http;
pub mod models;
pub mod store;

use vstd::prelude::*;

verus! {

/// Structured error body: a single free-text `details` field describing the
/// underlying store failure. There is no error-code taxonomy beyond this.
#[derive(Debug)]
pub struct ApiError {
    pub details: String,
}

impl Clone for ApiError {
    fn clone(&self) -> (r: ApiError)
        ensures
            r.details@ == self.details@,
    {
        ApiError { details: self.details.clone() }
    }
}

} // verus!
