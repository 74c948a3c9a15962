//! The status codes that classification gives.

use vstd::prelude::*;

verus! {

/// What was asked for is not there.
pub const NOT_FOUND: u16 = 404;

/// The request was understood and its content refused: the client can mend it.
pub const UNPROCESSABLE_ENTITY: u16 = 422;

/// The failure is on this side.
pub const INTERNAL_SERVER_ERROR: u16 = 500;

} // verus!
