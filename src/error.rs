use vstd::prelude::*;

verus! {

/// Error taxonomy of the core: each operation returns its entity or one of these.
#[derive(Debug)]
pub enum AppError {
    /// The referenced entity does not exist.
    NotFound(String),
    /// Malformed or out-of-range input.
    BadRequest(String),
    /// The caller is not authenticated.
    Unauthorized(String),
    /// The ownership check failed.
    Forbidden(String),
    /// Illegal state transition, invariant violation, insufficient stock or quota exceeded.
    Conflict(String),
    /// Unexpected failure inside the service.
    Internal(String),
    /// Storage failure; its detail is not surfaced to the caller.
    Database(String),
}

pub type AppResult<T> = Result<T, AppError>;

/// Builds an owned message from a literal.
pub fn msg(s: &str) -> (r: String)
    ensures
        r@ == s@,
{
    s.to_owned()
}

} // verus!
