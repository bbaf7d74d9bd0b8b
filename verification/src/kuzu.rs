//! The graph database connection. The database is a stub; its connection
//! carries nothing.

use vstd::prelude::*;

verus! {

/// A connection to the graph database.
pub struct StubConnection;

} // verus!
