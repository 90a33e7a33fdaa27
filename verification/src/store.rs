use vstd::prelude::*;

verus! {

/// A database query failed; the cause is not looked at.
#[derive(Debug, Clone, Copy, PartialEq, Eq, Structural)]
pub struct DbError;

} // verus!
