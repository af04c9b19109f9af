//! What becomes of an attempt to take a connection from the pool.

use vstd::prelude::*;

use crate::error::{internal_failure, ErrorResponse};

verus! {

/// Get a database connection with automatic error handling. `acquired` is the
/// connection that the pool gave, or `None` where it gave none: that is an
/// internal failure, whatever the cause, and the cause stays with the caller.
pub fn get_db<C>(acquired: Option<C>, expose_internal_errors: bool) -> (conn: Result<
    C,
    ErrorResponse,
>)
    ensures
        match acquired {
            Some(connection) => conn == Ok::<C, ErrorResponse>(connection),
            None => conn matches Err(error) && error@ == internal_failure(
                "Database connection failed"@,
                expose_internal_errors,
            ),
        },
{
    match acquired {
        Some(connection) => Ok(connection),
        None => Err(
            ErrorResponse::internal_server_error(
                "Database connection failed",
                expose_internal_errors,
            ),
        ),
    }
}

} // verus!
