//! The limit of the connection pool.

use vstd::prelude::*;

verus! {

/// Largest number of connections to the database that the pool keeps open.
pub const MAX_DATABASE_CONNECTIONS: u32 = 15;

} // verus!
