//! The error every request handler may answer with.
use vstd::prelude::*;

verus! {

/// Why a request was refused; each variant becomes one HTTP status.
#[derive(Debug, Clone, PartialEq, Eq)]
pub enum ApiError {
    /// 400: the request itself is malformed.
    BadRequest(String),
    /// 401: the admin key is missing or wrong.
    Unauthorized,
    /// 404: the named resource does not exist.
    NotFound(String),
    /// 500: something failed on the server's side.
    Internal(String),
}

} // verus!
