//! What a client is sent when no record goes back: a status and a text.

use vstd::prelude::*;

verus! {

/// The status of a request that was served.
pub const OK: u16 = 200;

/// The status that answers a request from an origin that is not allowed.
pub const FORBIDDEN: u16 = 403;

/// The status that answers a request for something that does not exist.
pub const NOT_FOUND: u16 = 404;

/// The status that answers a request which the API refuses.
pub const RANGE_NOT_SATISFIABLE: u16 = 416;

/// The status that answers a request whose body cannot be read as a record.
pub const UNPROCESSABLE_ENTITY: u16 = 422;

/// A status and the text that goes with it.
#[derive(Debug)]
pub struct Reply {
    pub status: u16,
    pub body: String,
}

} // verus!
